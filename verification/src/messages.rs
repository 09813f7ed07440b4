use vstd::prelude::*;

verus! {

/// The decimal digit for a value below ten.
pub open spec fn decimal_digit(d: int) -> char {
    if d == 0 {
        '0'
    } else if d == 1 {
        '1'
    } else if d == 2 {
        '2'
    } else if d == 3 {
        '3'
    } else if d == 4 {
        '4'
    } else if d == 5 {
        '5'
    } else if d == 6 {
        '6'
    } else if d == 7 {
        '7'
    } else if d == 8 {
        '8'
    } else {
        '9'
    }
}

/// The decimal numeral for `n`, without leading zeros.
pub open spec fn decimal(n: nat) -> Seq<char>
    decreases n,
{
    if n < 10 {
        seq![decimal_digit(n as int)]
    } else {
        decimal(n / 10).push(decimal_digit((n % 10) as int))
    }
}

/// What an operation answers that finds no index.
pub open spec fn not_initialized_text() -> Seq<char> {
    "검색 인덱스가 초기화되지 않았습니다. initialize_search_index()를 먼저 호출하세요."@
}

/// What a successful initialization in memory answers.
pub open spec fn initialized_text() -> Seq<char> {
    "검색 인덱스가 초기화되었습니다."@
}

/// What a successful initialization in a directory answers.
pub open spec fn initialized_at_text(path: Seq<char>) -> Seq<char> {
    "검색 인덱스가 초기화되었습니다. (경로: "@ + path + ")"@
}

/// What is answered where the directory of an index cannot be made.
pub open spec fn directory_error_text(detail: Seq<char>) -> Seq<char> {
    "디렉토리 생성 실패: "@ + detail
}

/// What is answered where an index that is there cannot be opened.
pub open spec fn open_error_text(detail: Seq<char>) -> Seq<char> {
    "인덱스 로드 실패: "@ + detail
}

/// What is answered where a new index cannot be made.
pub open spec fn create_error_text(detail: Seq<char>) -> Seq<char> {
    "인덱스 생성 실패: "@ + detail
}

/// What is said of an index that is there with another schema than the
/// profile's.
pub open spec fn schema_mismatch_text() -> Seq<char> {
    "An index exists but the schema does not match."@
}

/// What the indexing of the sample documents answers.
pub open spec fn samples_indexed_text() -> Seq<char> {
    "총 15개의 문서가 인덱싱되었습니다. (한국어 9개, 일본어 3개, 중국어 3개)"@
}

/// What an addition of `count` documents answers.
pub open spec fn added_text(count: nat) -> Seq<char> {
    "총 "@ + decimal(count) + "개의 문서가 추가되었습니다."@
}

/// What an update of the document `id` answers.
pub open spec fn updated_text(id: Seq<char>) -> Seq<char> {
    "문서 ID '"@ + id + "'가 업데이트되었습니다."@
}

/// What a deletion of the document `id` answers.
pub open spec fn deleted_text(id: Seq<char>) -> Seq<char> {
    "문서 ID '"@ + id + "'가 삭제되었습니다."@
}

/// What a deletion of `count` identities answers.
pub open spec fn deleted_many_text(count: nat) -> Seq<char> {
    "총 "@ + decimal(count) + "개의 문서가 삭제되었습니다."@
}

/// What a deletion of every document answers.
pub open spec fn cleared_text() -> Seq<char> {
    "모든 문서가 삭제되었습니다."@
}

fn decimal_str(d: u8) -> (s: &'static str)
    requires
        d < 10,
    ensures
        s@ == seq![decimal_digit(d as int)],
{
    proof {
        reveal_strlit("0");
        reveal_strlit("1");
        reveal_strlit("2");
        reveal_strlit("3");
        reveal_strlit("4");
        reveal_strlit("5");
        reveal_strlit("6");
        reveal_strlit("7");
        reveal_strlit("8");
        reveal_strlit("9");
    }
    let s = if d == 0 {
        "0"
    } else if d == 1 {
        "1"
    } else if d == 2 {
        "2"
    } else if d == 3 {
        "3"
    } else if d == 4 {
        "4"
    } else if d == 5 {
        "5"
    } else if d == 6 {
        "6"
    } else if d == 7 {
        "7"
    } else if d == 8 {
        "8"
    } else {
        "9"
    };
    assert(s@ =~= seq![decimal_digit(d as int)]);
    s
}

/// Appends the decimal numeral for `n` to `out`.
fn push_decimal(out: &mut String, n: usize)
    ensures
        final(out)@ == old(out)@ + decimal(n as nat),
    decreases n,
{
    if n >= 10 {
        push_decimal(out, n / 10);
    }
    let digit = (n % 10) as u8;
    out.append(decimal_str(digit));
    assert(final(out)@ =~= old(out)@ + decimal(n as nat));
}

/// `head`, the decimal numeral for `count`, `tail`.
fn counted(head: &str, count: usize, tail: &str) -> (text: String)
    ensures
        text@ == head@ + decimal(count as nat) + tail@,
{
    let mut text = String::from_str(head);
    push_decimal(&mut text, count);
    text.append(tail);
    text
}

/// `head`, `middle`, `tail`.
fn framed(head: &str, middle: &str, tail: &str) -> (text: String)
    ensures
        text@ == head@ + middle@ + tail@,
{
    let mut text = String::from_str(head);
    text.append(middle);
    text.append(tail);
    text
}

pub fn not_initialized_message() -> (text: String)
    ensures
        text@ == not_initialized_text(),
{
    String::from_str("검색 인덱스가 초기화되지 않았습니다. initialize_search_index()를 먼저 호출하세요.")
}

pub fn initialized_message() -> (text: String)
    ensures
        text@ == initialized_text(),
{
    String::from_str("검색 인덱스가 초기화되었습니다.")
}

pub fn initialized_at_message(path: &str) -> (text: String)
    ensures
        text@ == initialized_at_text(path@),
{
    framed("검색 인덱스가 초기화되었습니다. (경로: ", path, ")")
}

pub fn directory_error_message(detail: &str) -> (text: String)
    ensures
        text@ == directory_error_text(detail@),
{
    let text = framed("디렉토리 생성 실패: ", detail, "");
    proof {
        reveal_strlit("");
        assert(text@ =~= directory_error_text(detail@));
    }
    text
}

pub fn open_error_message(detail: &str) -> (text: String)
    ensures
        text@ == open_error_text(detail@),
{
    let text = framed("인덱스 로드 실패: ", detail, "");
    proof {
        reveal_strlit("");
        assert(text@ =~= open_error_text(detail@));
    }
    text
}

pub fn create_error_message(detail: &str) -> (text: String)
    ensures
        text@ == create_error_text(detail@),
{
    let text = framed("인덱스 생성 실패: ", detail, "");
    proof {
        reveal_strlit("");
        assert(text@ =~= create_error_text(detail@));
    }
    text
}

pub fn schema_mismatch_message() -> (text: String)
    ensures
        text@ == open_error_text(schema_mismatch_text()),
{
    open_error_message("An index exists but the schema does not match.")
}

pub fn samples_indexed_message() -> (text: String)
    ensures
        text@ == samples_indexed_text(),
{
    String::from_str("총 15개의 문서가 인덱싱되었습니다. (한국어 9개, 일본어 3개, 중국어 3개)")
}

pub fn added_message(count: usize) -> (text: String)
    ensures
        text@ == added_text(count as nat),
{
    counted("총 ", count, "개의 문서가 추가되었습니다.")
}

pub fn updated_message(id: &str) -> (text: String)
    ensures
        text@ == updated_text(id@),
{
    framed("문서 ID '", id, "'가 업데이트되었습니다.")
}

pub fn deleted_message(id: &str) -> (text: String)
    ensures
        text@ == deleted_text(id@),
{
    framed("문서 ID '", id, "'가 삭제되었습니다.")
}

pub fn deleted_many_message(count: usize) -> (text: String)
    ensures
        text@ == deleted_many_text(count as nat),
{
    counted("총 ", count, "개의 문서가 삭제되었습니다.")
}

pub fn cleared_message() -> (text: String)
    ensures
        text@ == cleared_text(),
{
    String::from_str("모든 문서가 삭제되었습니다.")
}

} // verus!
