use cjk_search::messages::{
    added_message, cleared_message, create_error_message, deleted_many_message, deleted_message,
    directory_error_message, initialized_at_message, initialized_message,
    not_initialized_message, open_error_message, samples_indexed_message,
    schema_mismatch_message, updated_message,
};

#[test]
fn fixed_messages() {
    assert_eq!(
        not_initialized_message(),
        "검색 인덱스가 초기화되지 않았습니다. initialize_search_index()를 먼저 호출하세요."
    );
    assert_eq!(initialized_message(), "검색 인덱스가 초기화되었습니다.");
    assert_eq!(
        samples_indexed_message(),
        "총 15개의 문서가 인덱싱되었습니다. (한국어 9개, 일본어 3개, 중국어 3개)"
    );
    assert_eq!(cleared_message(), "모든 문서가 삭제되었습니다.");
}

#[test]
fn messages_that_name_a_path_or_an_identity() {
    assert_eq!(
        initialized_at_message("/data/index"),
        "검색 인덱스가 초기화되었습니다. (경로: /data/index)"
    );
    assert_eq!(initialized_at_message(""), "검색 인덱스가 초기화되었습니다. (경로: )");
    assert_eq!(updated_message("doc-1"), "문서 ID 'doc-1'가 업데이트되었습니다.");
    assert_eq!(deleted_message("doc-1"), "문서 ID 'doc-1'가 삭제되었습니다.");
    assert_eq!(deleted_message(""), "문서 ID ''가 삭제되었습니다.");
}

#[test]
fn messages_that_count() {
    assert_eq!(added_message(0), "총 0개의 문서가 추가되었습니다.");
    assert_eq!(added_message(7), "총 7개의 문서가 추가되었습니다.");
    assert_eq!(added_message(10), "총 10개의 문서가 추가되었습니다.");
    assert_eq!(added_message(1234567890), "총 1234567890개의 문서가 추가되었습니다.");
    assert_eq!(added_message(usize::MAX), format!("총 {}개의 문서가 추가되었습니다.", usize::MAX));
    assert_eq!(deleted_many_message(3), "총 3개의 문서가 삭제되었습니다.");
    assert_eq!(deleted_many_message(100), "총 100개의 문서가 삭제되었습니다.");
}

#[test]
fn messages_that_wrap_an_error() {
    assert_eq!(directory_error_message("denied"), "디렉토리 생성 실패: denied");
    assert_eq!(open_error_message("corrupt"), "인덱스 로드 실패: corrupt");
    assert_eq!(create_error_message("exists"), "인덱스 생성 실패: exists");
    assert_eq!(
        schema_mismatch_message(),
        "인덱스 로드 실패: An index exists but the schema does not match."
    );
}
