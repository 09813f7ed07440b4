use cjk_search::engine::use_opened_index;
use cjk_search::schema::{declare_fields, schema_plan};
use cjk_search::{
    add_document, add_documents, clear_all_documents, delete_document, delete_documents,
    get_document_count, index_sample_documents, initialize_search_index,
    initialize_search_index_with_path, search_documents, update_document, DictionaryType,
    DocumentInput, SearchEngine,
};

const NOT_INITIALIZED: &str =
    "검색 인덱스가 초기화되지 않았습니다. initialize_search_index()를 먼저 호출하세요.";

fn input(id: &str, title: &str, body: &str, metadata: &str) -> DocumentInput {
    DocumentInput {
        id: id.to_string(),
        title: title.to_string(),
        body: body.to_string(),
        metadata: metadata.to_string(),
    }
}

/// An engine with a Korean index in memory, where the build holds the Korean
/// dictionary; `None` where it does not.
fn korean_engine() -> Option<SearchEngine> {
    let mut engine = SearchEngine::new();
    match initialize_search_index(&mut engine, DictionaryType::Korean) {
        Ok(text) => {
            assert_eq!(text, "검색 인덱스가 초기화되었습니다.");
            Some(engine)
        }
        Err(_) => None,
    }
}

fn ids_found(engine: &SearchEngine, query: &str) -> Vec<String> {
    search_documents(engine, query.to_string(), 10).unwrap().into_iter().map(|r| r.id).collect()
}

#[test]
fn every_operation_asks_for_an_index_first() {
    let mut engine = SearchEngine::new();
    let text = || "x".to_string();
    assert_eq!(add_document(&mut engine, text(), text(), text()), Err(NOT_INITIALIZED.to_string()));
    assert_eq!(
        add_documents(&mut engine, vec![input("", "t", "b", "{}")]),
        Err(NOT_INITIALIZED.to_string())
    );
    assert_eq!(add_documents(&mut engine, Vec::new()), Err(NOT_INITIALIZED.to_string()));
    assert_eq!(
        update_document(&mut engine, text(), text(), text(), text()),
        Err(NOT_INITIALIZED.to_string())
    );
    assert_eq!(delete_document(&mut engine, text()), Err(NOT_INITIALIZED.to_string()));
    assert_eq!(delete_documents(&mut engine, vec![text()]), Err(NOT_INITIALIZED.to_string()));
    assert_eq!(clear_all_documents(&mut engine), Err(NOT_INITIALIZED.to_string()));
    assert_eq!(index_sample_documents(&mut engine), Err(NOT_INITIALIZED.to_string()));
    assert_eq!(get_document_count(&engine), Err(NOT_INITIALIZED.to_string()));
    match search_documents(&engine, text(), 10) {
        Err(error) => assert_eq!(error, NOT_INITIALIZED),
        Ok(_) => panic!("a search without an index must fail"),
    }
    match search_documents(&engine, text(), 0) {
        Err(error) => assert_eq!(error, NOT_INITIALIZED),
        Ok(_) => panic!("a search without an index must fail"),
    }
}

#[test]
fn failed_initialization_leaves_the_engine_without_index() {
    let profiles = [
        DictionaryType::Korean,
        DictionaryType::JapaneseIpadic,
        DictionaryType::JapaneseUnidic,
        DictionaryType::Chinese,
    ];
    for profile in profiles {
        let mut engine = SearchEngine::new();
        match initialize_search_index(&mut engine, profile) {
            Ok(text) => {
                assert_eq!(text, "검색 인덱스가 초기화되었습니다.");
                assert_eq!(get_document_count(&engine), Ok(0));
            }
            Err(error) => {
                assert!(!error.is_empty());
                assert_eq!(get_document_count(&engine), Err(NOT_INITIALIZED.to_string()));
            }
        }
    }
}

#[test]
fn opening_a_missing_directory_fails_with_the_load_error() {
    let mut engine = SearchEngine::new();
    let path = "/nonexistent/cjk-search/index-to-open".to_string();
    match initialize_search_index_with_path(&mut engine, DictionaryType::Korean, path, true) {
        Err(error) => assert!(error.starts_with("인덱스 로드 실패: "), "{}", error),
        Ok(_) => panic!("a directory that is not there cannot be opened"),
    }
    assert_eq!(get_document_count(&engine), Err(NOT_INITIALIZED.to_string()));
}

#[test]
fn creating_in_a_missing_directory_fails_with_the_creation_error() {
    let mut engine = SearchEngine::new();
    let path = "/nonexistent/cjk-search/index-to-create".to_string();
    match initialize_search_index_with_path(&mut engine, DictionaryType::Korean, path, false) {
        Err(error) => assert!(error.starts_with("인덱스 생성 실패: "), "{}", error),
        Ok(_) => panic!("an index cannot be made in a directory that is not there"),
    }
    assert_eq!(get_document_count(&engine), Err(NOT_INITIALIZED.to_string()));
}

#[test]
fn opened_index_with_another_schema_is_refused() {
    let mut builder = tantivy::schema::Schema::builder();
    builder.add_text_field("title", tantivy::schema::TEXT | tantivy::schema::STORED);
    let index = tantivy::Index::create_in_ram(builder.build());
    let mut engine = SearchEngine::new();
    assert_eq!(
        use_opened_index(&mut engine, DictionaryType::Korean, index, false, "/data/index"),
        Err("인덱스 로드 실패: An index exists but the schema does not match.".to_string())
    );
    assert_eq!(get_document_count(&engine), Err(NOT_INITIALIZED.to_string()));
}

#[test]
fn opened_index_with_the_schema_of_the_profile_is_put_in_use() {
    let schema = declare_fields(&schema_plan("lang_ko")).build();
    let index = tantivy::Index::create_in_ram(schema);
    let mut engine = SearchEngine::new();
    match use_opened_index(&mut engine, DictionaryType::Korean, index, true, "/data/index") {
        Ok(text) => {
            assert_eq!(text, "검색 인덱스가 초기화되었습니다. (경로: /data/index)");
            assert_eq!(get_document_count(&engine), Ok(0));
        }
        Err(error) => {
            assert!(!error.starts_with("인덱스 로드 실패: "), "{}", error);
            assert_eq!(get_document_count(&engine), Err(NOT_INITIALIZED.to_string()));
        }
    }
}

#[test]
fn incheon_airport_is_found_by_substring_and_by_morpheme() {
    let Some(mut engine) = korean_engine() else {
        return;
    };
    let id = add_document(
        &mut engine,
        "인천국제공항".to_string(),
        "인천국제공항은 대한민국의 국제공항이다.".to_string(),
        "{}".to_string(),
    )
    .unwrap();
    assert_eq!(ids_found(&engine, "인천"), vec![id.clone()]);
    assert_eq!(ids_found(&engine, "국제공항"), vec![id.clone()]);
    assert_eq!(get_document_count(&engine), Ok(1));
    let results = search_documents(&engine, "인천".to_string(), 10).unwrap();
    assert_eq!(results[0].title, "인천국제공항");
    assert_eq!(results[0].body, "인천국제공항은 대한민국의 국제공항이다.");
    assert_eq!(results[0].metadata, "{}");
    assert!(f32::from_bits(results[0].score_bits) > 0.0);
}

#[test]
fn every_substring_of_two_characters_finds_the_document() {
    let Some(mut engine) = korean_engine() else {
        return;
    };
    let text = "김포국제공항";
    let id = add_document(&mut engine, text.to_string(), text.to_string(), "{}".to_string()).unwrap();
    let characters: Vec<char> = text.chars().collect();
    for start in 0..characters.len() {
        for end in (start + 2)..=characters.len() {
            let query: String = characters[start..end].iter().collect();
            assert_eq!(ids_found(&engine, &query), vec![id.clone()], "query {}", query);
        }
    }
}

#[test]
fn added_document_gets_a_generated_identity() {
    let Some(mut engine) = korean_engine() else {
        return;
    };
    let first = add_document(&mut engine, "a".to_string(), "b".to_string(), "{}".to_string()).unwrap();
    let second = add_document(&mut engine, "a".to_string(), "b".to_string(), "{}".to_string()).unwrap();
    assert_ne!(first, second);
    for id in [&first, &second] {
        let (timestamp, counter) = id.split_once('-').unwrap();
        assert_eq!(timestamp.len(), 16);
        assert_eq!(counter.len(), 8);
        assert!(id.chars().all(|c| c == '-' || c.is_ascii_digit() || ('a'..='f').contains(&c)));
    }
    assert!(first.ends_with("-00000000"));
    assert!(second.ends_with("-00000001"));
    assert_eq!(get_document_count(&engine), Ok(2));
}

#[test]
fn update_made_twice_leaves_one_document() {
    let Some(mut engine) = korean_engine() else {
        return;
    };
    for _ in 0..2 {
        let answer = update_document(
            &mut engine,
            "doc-1".to_string(),
            "제주국제공항".to_string(),
            "제주국제공항은 제주시에 있다.".to_string(),
            "{\"iata\":\"CJU\"}".to_string(),
        );
        assert_eq!(answer, Ok("문서 ID 'doc-1'가 업데이트되었습니다.".to_string()));
    }
    assert_eq!(get_document_count(&engine), Ok(1));
    let results = search_documents(&engine, "제주".to_string(), 10).unwrap();
    assert_eq!(results.len(), 1);
    assert_eq!(results[0].id, "doc-1");
    assert_eq!(results[0].title, "제주국제공항");
    assert_eq!(results[0].body, "제주국제공항은 제주시에 있다.");
    assert_eq!(results[0].metadata, "{\"iata\":\"CJU\"}");
}

#[test]
fn update_replaces_the_content_under_the_identity() {
    let Some(mut engine) = korean_engine() else {
        return;
    };
    let doc = |title: &str| {
        ("doc-1".to_string(), title.to_string(), title.to_string(), "{}".to_string())
    };
    let (id, title, body, metadata) = doc("김포국제공항");
    update_document(&mut engine, id, title, body, metadata).unwrap();
    let (id, title, body, metadata) = doc("제주국제공항");
    update_document(&mut engine, id, title, body, metadata).unwrap();
    assert_eq!(get_document_count(&engine), Ok(1));
    assert_eq!(ids_found(&engine, "제주"), vec!["doc-1".to_string()]);
    assert!(ids_found(&engine, "김포").is_empty());
}

#[test]
fn deleted_document_is_not_found_any_more() {
    let Some(mut engine) = korean_engine() else {
        return;
    };
    add_documents(
        &mut engine,
        vec![
            input("keep", "김포국제공항", "서울의 공항", "{}"),
            input("drop", "제주국제공항", "제주의 공항", "{}"),
        ],
    )
    .unwrap();
    assert_eq!(
        delete_document(&mut engine, "drop".to_string()),
        Ok("문서 ID 'drop'가 삭제되었습니다.".to_string())
    );
    assert!(ids_found(&engine, "제주").is_empty());
    assert_eq!(ids_found(&engine, "공항"), vec!["keep".to_string()]);
    assert_eq!(get_document_count(&engine), Ok(1));
}

#[test]
fn deleting_an_unknown_identity_changes_nothing() {
    let Some(mut engine) = korean_engine() else {
        return;
    };
    add_documents(&mut engine, vec![input("keep", "김포국제공항", "서울의 공항", "{}")]).unwrap();
    assert_eq!(
        delete_document(&mut engine, "unknown".to_string()),
        Ok("문서 ID 'unknown'가 삭제되었습니다.".to_string())
    );
    assert_eq!(get_document_count(&engine), Ok(1));
}

#[test]
fn batch_deletion_deletes_each_identity() {
    let Some(mut engine) = korean_engine() else {
        return;
    };
    add_documents(
        &mut engine,
        vec![
            input("a", "김포국제공항", "서울", "{}"),
            input("b", "제주국제공항", "제주", "{}"),
            input("c", "인천국제공항", "인천", "{}"),
        ],
    )
    .unwrap();
    assert_eq!(
        delete_documents(&mut engine, vec!["a".to_string(), "c".to_string(), "none".to_string()]),
        Ok("총 3개의 문서가 삭제되었습니다.".to_string())
    );
    assert_eq!(get_document_count(&engine), Ok(1));
    assert_eq!(ids_found(&engine, "공항"), vec!["b".to_string()]);
}

#[test]
fn batch_addition_raises_the_count_by_its_length() {
    let Some(mut engine) = korean_engine() else {
        return;
    };
    add_document(&mut engine, "우리".to_string(), "할아버지".to_string(), "{}".to_string()).unwrap();
    let batch = vec![
        input("", "김포국제공항", "서울", "{}"),
        input("own", "제주국제공항", "제주", "{}"),
        input("", "인천국제공항", "인천", "not json"),
        input("own", "홍콩국제공항", "홍콩", "{}"),
    ];
    assert_eq!(add_documents(&mut engine, batch), Ok("총 4개의 문서가 추가되었습니다.".to_string()));
    assert_eq!(get_document_count(&engine), Ok(5));
    let found = search_documents(&engine, "국제공항".to_string(), 10).unwrap();
    assert_eq!(found.len(), 4);
    let generated: Vec<&String> = found.iter().map(|r| &r.id).filter(|id| id.as_str() != "own").collect();
    assert_eq!(generated.len(), 2);
    assert_ne!(generated[0], generated[1]);
    assert_eq!(found.iter().filter(|r| r.id == "own").count(), 2);
}

#[test]
fn empty_batch_adds_nothing() {
    let Some(mut engine) = korean_engine() else {
        return;
    };
    assert_eq!(add_documents(&mut engine, Vec::new()), Ok("총 0개의 문서가 추가되었습니다.".to_string()));
    assert_eq!(get_document_count(&engine), Ok(0));
}

#[test]
fn clearing_leaves_no_document() {
    let Some(mut engine) = korean_engine() else {
        return;
    };
    assert_eq!(
        index_sample_documents(&mut engine),
        Ok("총 15개의 문서가 인덱싱되었습니다. (한국어 9개, 일본어 3개, 중국어 3개)".to_string())
    );
    assert_eq!(get_document_count(&engine), Ok(15));
    assert_eq!(clear_all_documents(&mut engine), Ok("모든 문서가 삭제되었습니다.".to_string()));
    assert_eq!(get_document_count(&engine), Ok(0));
    assert!(ids_found(&engine, "국제공항").is_empty());
    assert_eq!(clear_all_documents(&mut engine), Ok("모든 문서가 삭제되었습니다.".to_string()));
    assert_eq!(get_document_count(&engine), Ok(0));
}

#[test]
fn malformed_metadata_is_stored_as_the_empty_object() {
    let Some(mut engine) = korean_engine() else {
        return;
    };
    let id = add_document(
        &mut engine,
        "김포국제공항".to_string(),
        "서울".to_string(),
        "not json".to_string(),
    )
    .unwrap();
    let results = search_documents(&engine, "김포".to_string(), 10).unwrap();
    assert_eq!(results.len(), 1);
    assert_eq!(results[0].id, id);
    assert_eq!(results[0].metadata, "{}");
}

#[test]
fn metadata_comes_back_as_json_text() {
    let Some(mut engine) = korean_engine() else {
        return;
    };
    add_document(
        &mut engine,
        "김포국제공항".to_string(),
        "서울".to_string(),
        "{\"iata\":\"GMP\",\"runways\":2,\"open\":true,\"tags\":[\"a\",1],\"inner\":{\"k\":1}}".to_string(),
    )
    .unwrap();
    let results = search_documents(&engine, "김포".to_string(), 10).unwrap();
    assert_eq!(
        results[0].metadata,
        "{\"iata\":\"GMP\",\"inner\":null,\"open\":true,\"runways\":2,\"tags\":[\"a\",1]}"
    );
}

#[test]
fn search_keeps_to_the_limit() {
    let Some(mut engine) = korean_engine() else {
        return;
    };
    index_sample_documents(&mut engine).unwrap();
    assert_eq!(search_documents(&engine, "국제공항".to_string(), 3).unwrap().len(), 3);
    assert_eq!(search_documents(&engine, "국제공항".to_string(), 1).unwrap().len(), 1);
    assert!(search_documents(&engine, "국제공항".to_string(), 0).unwrap().is_empty());
    assert!(search_documents(&engine, "국제공항".to_string(), usize::MAX).unwrap().len() <= 15);
}

#[test]
fn search_ranks_the_best_match_first() {
    let Some(mut engine) = korean_engine() else {
        return;
    };
    index_sample_documents(&mut engine).unwrap();
    let results = search_documents(&engine, "국제공항".to_string(), 15).unwrap();
    for pair in results.windows(2) {
        assert!(f32::from_bits(pair[0].score_bits) >= f32::from_bits(pair[1].score_bits));
    }
}

#[test]
fn malformed_query_is_an_error_of_the_search() {
    let Some(mut engine) = korean_engine() else {
        return;
    };
    add_document(&mut engine, "a".to_string(), "b".to_string(), "{}".to_string()).unwrap();
    assert!(search_documents(&engine, "title:".to_string(), 10).is_err());
    assert!(search_documents(&engine, "title:".to_string(), 0).is_err());
    assert_eq!(get_document_count(&engine), Ok(1));
}

#[test]
fn initializing_again_replaces_the_index() {
    let Some(mut engine) = korean_engine() else {
        return;
    };
    add_document(&mut engine, "a".to_string(), "b".to_string(), "{}".to_string()).unwrap();
    assert_eq!(get_document_count(&engine), Ok(1));
    initialize_search_index(&mut engine, DictionaryType::Korean).unwrap();
    assert_eq!(get_document_count(&engine), Ok(0));
}
