use cjk_search::samples::{sample_documents, SAMPLE_COUNT};
use cjk_search::schema::{schema_plan, FieldKind, RecordOption};

#[test]
fn schema_lists_the_six_fields_in_their_order() {
    let plan = schema_plan("lang_ko");
    let names: Vec<&str> = plan.iter().map(|field| field.name.as_str()).collect();
    assert_eq!(names, vec!["id", "title", "body", "title_ngram", "body_ngram", "metadata"]);
}

#[test]
fn schema_assigns_the_tokenizers() {
    let plan = schema_plan("lang_ja_ipadic");
    let tokenizers: Vec<&str> = plan.iter().map(|field| field.tokenizer.as_str()).collect();
    assert_eq!(
        tokenizers,
        vec!["raw", "lang_ja_ipadic", "lang_ja_ipadic", "ngram_tokenizer", "ngram_tokenizer", "raw"]
    );
}

#[test]
fn schema_keeps_positions_for_the_ranked_fields_only() {
    let plan = schema_plan("lang_zh");
    let records: Vec<RecordOption> = plan.iter().map(|field| field.record).collect();
    assert_eq!(
        records,
        vec![
            RecordOption::Basic,
            RecordOption::WithFreqsAndPositions,
            RecordOption::WithFreqsAndPositions,
            RecordOption::WithFreqsAndPositions,
            RecordOption::WithFreqsAndPositions,
            RecordOption::Basic,
        ]
    );
    let kinds: Vec<FieldKind> = plan.iter().map(|field| field.kind).collect();
    assert_eq!(
        kinds,
        vec![
            FieldKind::Text,
            FieldKind::Text,
            FieldKind::Text,
            FieldKind::Text,
            FieldKind::Text,
            FieldKind::Json,
        ]
    );
}

#[test]
fn sample_documents_are_fifteen_without_identity() {
    let documents = sample_documents();
    assert_eq!(documents.len(), 15);
    assert_eq!(SAMPLE_COUNT, 15);
    assert!(documents.iter().all(|document| document.id.is_empty()));
    assert_eq!(documents[0].title, "나리타 국제공항");
    assert_eq!(documents[3].title, "인천국제공항");
    assert_eq!(documents[8].title, "東京国際空港");
    assert_eq!(documents[11].title, "北京首都国际机场");
    assert_eq!(documents[14].title, "우리 할아버지");
}

#[test]
fn sample_metadata_is_a_json_object() {
    for document in sample_documents() {
        let value: serde_json::Value = serde_json::from_str(&document.metadata).unwrap();
        assert!(value.is_object());
        assert!(value.get("language").is_some() || value.get("country").is_some());
    }
    let first: serde_json::Value = serde_json::from_str(&sample_documents()[0].metadata).unwrap();
    assert_eq!(first.get("iata"), Some(&serde_json::Value::String("NRT".to_string())));
    assert_eq!(first.get("city"), Some(&serde_json::Value::String("나리타".to_string())));
}
