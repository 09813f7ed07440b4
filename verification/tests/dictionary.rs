use cjk_search::DictionaryType;

#[test]
fn embedded_paths_of_all_profiles() {
    assert_eq!(DictionaryType::Korean.to_embedded_path(), "embedded://ko-dic");
    assert_eq!(DictionaryType::JapaneseIpadic.to_embedded_path(), "embedded://ipadic");
    assert_eq!(DictionaryType::JapaneseUnidic.to_embedded_path(), "embedded://unidic");
    assert_eq!(DictionaryType::Chinese.to_embedded_path(), "embedded://cc-cedict");
}

#[test]
fn tokenizer_names_of_all_profiles() {
    assert_eq!(DictionaryType::Korean.to_tokenizer_name(), "lang_ko");
    assert_eq!(DictionaryType::JapaneseIpadic.to_tokenizer_name(), "lang_ja_ipadic");
    assert_eq!(DictionaryType::JapaneseUnidic.to_tokenizer_name(), "lang_ja_unidic");
    assert_eq!(DictionaryType::Chinese.to_tokenizer_name(), "lang_zh");
}

#[test]
fn tokenizer_names_are_distinct() {
    let names = [
        DictionaryType::Korean.to_tokenizer_name(),
        DictionaryType::JapaneseIpadic.to_tokenizer_name(),
        DictionaryType::JapaneseUnidic.to_tokenizer_name(),
        DictionaryType::Chinese.to_tokenizer_name(),
    ];
    for i in 0..names.len() {
        assert_ne!(names[i], "raw");
        assert_ne!(names[i], "ngram_tokenizer");
        for j in 0..i {
            assert_ne!(names[i], names[j]);
        }
    }
}
