use cjk_search::json::JsonValue;
use cjk_search::query::hits_to_ask_for;
use cjk_search::result::{find_first, project_document};
use cjk_search::schema::FieldSet;
use cjk_search::value::{
    project_field, project_item, project_metadata, project_object, project_text,
};
use tantivy::schema::OwnedValue;

fn text(value: &str) -> OwnedValue {
    OwnedValue::Str(value.to_string())
}

fn fields() -> FieldSet {
    FieldSet { id: 0, title: 1, body: 2, title_ngram: 3, body_ngram: 4, metadata: 5 }
}

#[test]
fn scalar_items_keep_their_natural_type() {
    assert_eq!(project_item(&text("서울")), JsonValue::Text("서울".to_string()));
    assert_eq!(project_item(&OwnedValue::U64(7)), JsonValue::UInt(7));
    assert_eq!(project_item(&OwnedValue::I64(-7)), JsonValue::Int(-7));
    assert_eq!(project_item(&OwnedValue::Bool(true)), JsonValue::Bool(true));
    assert_eq!(project_item(&OwnedValue::F64(2.5)), JsonValue::Raw(serde_json::Value::from(2.5)));
}

#[test]
fn other_items_become_null() {
    assert_eq!(project_item(&OwnedValue::Null), JsonValue::Null);
    assert_eq!(project_item(&OwnedValue::Bytes(vec![1, 2])), JsonValue::Null);
    assert_eq!(project_item(&OwnedValue::Array(vec![text("a")])), JsonValue::Null);
    assert_eq!(project_item(&OwnedValue::Object(vec![("k".to_string(), text("v"))])), JsonValue::Null);
    assert_eq!(
        project_item(&OwnedValue::Date(tantivy::DateTime::from_timestamp_secs(0))),
        JsonValue::Null
    );
}

#[test]
fn float_that_is_not_finite_becomes_null() {
    assert_eq!(
        project_item(&OwnedValue::F64(f64::NAN)),
        JsonValue::Raw(serde_json::Value::Null)
    );
}

#[test]
fn arrays_are_projected_member_by_member() {
    let array = OwnedValue::Array(vec![
        text("a"),
        OwnedValue::U64(1),
        OwnedValue::Array(vec![text("nested")]),
        OwnedValue::Object(vec![("k".to_string(), text("v"))]),
        OwnedValue::Bool(false),
    ]);
    assert_eq!(
        project_field(&array),
        JsonValue::Array(vec![
            JsonValue::Text("a".to_string()),
            JsonValue::UInt(1),
            JsonValue::Null,
            JsonValue::Null,
            JsonValue::Bool(false),
        ])
    );
    assert_eq!(project_field(&OwnedValue::Array(Vec::new())), JsonValue::Array(Vec::new()));
}

#[test]
fn fields_that_are_no_array_are_projected_like_items() {
    assert_eq!(project_field(&text("x")), JsonValue::Text("x".to_string()));
    assert_eq!(project_field(&OwnedValue::I64(3)), JsonValue::Int(3));
    assert_eq!(project_field(&OwnedValue::Null), JsonValue::Null);
    assert_eq!(
        project_field(&OwnedValue::Object(vec![("k".to_string(), text("v"))])),
        JsonValue::Null
    );
}

#[test]
fn objects_are_projected_member_by_member() {
    let members = vec![
        ("city".to_string(), text("인천")),
        ("codes".to_string(), OwnedValue::Array(vec![text("ICN"), text("RKSI")])),
        ("inner".to_string(), OwnedValue::Object(vec![("k".to_string(), text("v"))])),
    ];
    assert_eq!(
        project_object(&members),
        JsonValue::Object(vec![
            ("city".to_string(), JsonValue::Text("인천".to_string())),
            (
                "codes".to_string(),
                JsonValue::Array(vec![
                    JsonValue::Text("ICN".to_string()),
                    JsonValue::Text("RKSI".to_string()),
                ])
            ),
            ("inner".to_string(), JsonValue::Null),
        ])
    );
}

#[test]
fn metadata_text_of_a_stored_object() {
    let value = OwnedValue::Object(vec![
        ("iata".to_string(), text("ICN")),
        ("city".to_string(), text("인천")),
        ("runways".to_string(), OwnedValue::I64(4)),
        ("rate".to_string(), OwnedValue::F64(0.5)),
        ("tags".to_string(), OwnedValue::Array(vec![text("hub"), OwnedValue::Bool(true)])),
    ]);
    assert_eq!(
        project_metadata(Some(&value)),
        "{\"city\":\"인천\",\"iata\":\"ICN\",\"rate\":0.5,\"runways\":4,\"tags\":[\"hub\",true]}"
    );
}

#[test]
fn metadata_text_of_the_empty_object_is_braces() {
    assert_eq!(project_metadata(Some(&OwnedValue::Object(Vec::new()))), "{}");
}

#[test]
fn metadata_text_of_a_stored_text_is_the_text() {
    assert_eq!(project_metadata(Some(&text("{\"already\":\"json\"}"))), "{\"already\":\"json\"}");
    assert_eq!(project_metadata(Some(&text("plain"))), "plain");
}

#[test]
fn metadata_text_of_a_missing_or_odd_value_is_braces() {
    assert_eq!(project_metadata(None), "{}");
    assert_eq!(project_metadata(Some(&OwnedValue::U64(1))), "{}");
    assert_eq!(project_metadata(Some(&OwnedValue::Null)), "{}");
    assert_eq!(project_metadata(Some(&OwnedValue::Array(vec![text("a")]))), "{}");
}

#[test]
fn text_of_a_missing_or_odd_value_is_empty() {
    assert_eq!(project_text(None), "");
    assert_eq!(project_text(Some(&OwnedValue::U64(1))), "");
    assert_eq!(project_text(Some(&OwnedValue::Null)), "");
    assert_eq!(project_text(Some(&text("제목"))), "제목");
}

#[test]
fn first_value_of_a_field_is_found() {
    let entries = vec![(1u32, text("first")), (2u32, text("other")), (1u32, text("second"))];
    assert_eq!(find_first(&entries, 1), Some(&text("first")));
    assert_eq!(find_first(&entries, 2), Some(&text("other")));
    assert_eq!(find_first(&entries, 3), None);
    assert_eq!(find_first(&Vec::new(), 0), None);
}

#[test]
fn stored_document_is_projected_to_a_result() {
    let entries = vec![
        (0u32, text("0000000000000001-00000000")),
        (1u32, text("인천국제공항")),
        (2u32, text("인천국제공항은 대한민국의 국제공항이다.")),
        (5u32, OwnedValue::Object(vec![("iata".to_string(), text("ICN"))])),
        (3u32, text("인천국제공항")),
        (4u32, text("인천국제공항은 대한민국의 국제공항이다.")),
    ];
    let result = project_document(&entries, &fields(), 1.25f32.to_bits());
    assert_eq!(result.id, "0000000000000001-00000000");
    assert_eq!(result.title, "인천국제공항");
    assert_eq!(result.body, "인천국제공항은 대한민국의 국제공항이다.");
    assert_eq!(f32::from_bits(result.score_bits), 1.25);
    assert_eq!(result.metadata, "{\"iata\":\"ICN\"}");
}

#[test]
fn document_without_fields_is_projected_to_empty_texts() {
    let result = project_document(&Vec::new(), &fields(), 0);
    assert_eq!(result.id, "");
    assert_eq!(result.title, "");
    assert_eq!(result.body, "");
    assert_eq!(result.score_bits, 0);
    assert_eq!(result.metadata, "{}");
}

#[test]
fn document_is_projected_from_its_own_fields_only() {
    let entries = vec![(3u32, text("ngram title")), (4u32, text("ngram body")), (0u32, OwnedValue::U64(9))];
    let result = project_document(&entries, &fields(), 7);
    assert_eq!(result.id, "");
    assert_eq!(result.title, "");
    assert_eq!(result.body, "");
    assert_eq!(result.metadata, "{}");
}

#[test]
fn hits_are_asked_for_up_to_the_number_of_documents() {
    assert_eq!(hits_to_ask_for(10, 15), 10);
    assert_eq!(hits_to_ask_for(15, 15), 15);
    assert_eq!(hits_to_ask_for(16, 15), 15);
    assert_eq!(hits_to_ask_for(usize::MAX, 3), 3);
    assert_eq!(hits_to_ask_for(0, 3), 0);
    assert_eq!(hits_to_ask_for(5, 0), 0);
    assert_eq!(hits_to_ask_for(0, 0), 0);
    assert_eq!(hits_to_ask_for(7, u64::MAX), 7);
}
