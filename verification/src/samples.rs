use crate::document::{inputs_view, DocumentInput, InputView};
use vstd::prelude::*;

verus! {

/// How many sample documents there are: nine Korean, three Japanese and
/// three Chinese ones.
pub const SAMPLE_COUNT: usize = 15;

pub const SAMPLE_TITLE_0: &'static str = "나리타 국제공항";

pub const SAMPLE_BODY_0: &'static str = "나리타 국제공항(일본어: 成田国際空港, 영어: Narita International Airport, IATA: NRT, ICAO: RJAA)은 일본 지바현 나리타시에 위치한 국제공항으로, 도쿄도 도심에서 동북쪽으로 약 62km 떨어져 있다.";

pub const SAMPLE_METADATA_0: &'static str = "{\"country\":\"일본\",\"iata\":\"NRT\",\"icao\":\"RJAA\",\"city\":\"나리타\"}";

pub const SAMPLE_TITLE_1: &'static str = "도쿄 국제공항";

pub const SAMPLE_BODY_1: &'static str = "도쿄국제공항(일본어: 東京国際空港、とうきょうこくさいくうこう, 영어: Tokyo International Airport)은 일본 도쿄도 오타구에 있는 공항이다. 보통 이 일대의 옛 지명을 본뜬 하네다 공항(일본어: 羽田空港, 영어: Haneda Airport)이라고 불린다.";

pub const SAMPLE_METADATA_1: &'static str = "{\"country\":\"일본\",\"iata\":\"HND\",\"icao\":\"RJTT\",\"city\":\"도쿄\"}";

pub const SAMPLE_TITLE_2: &'static str = "간사이 국제공항";

pub const SAMPLE_BODY_2: &'static str = "간사이 국제공항(일본어: 関西国際空港, IATA: KIX, ICAO: RJBB)은 일본 오사카부 오사카 만에 조성된 인공섬에 위치한 일본의 공항으로, 대한민국의 인천국제공항보다 6년 반 앞선 1994년 9월 4일에 개항했다.";

pub const SAMPLE_METADATA_2: &'static str = "{\"country\":\"일본\",\"iata\":\"KIX\",\"icao\":\"RJBB\",\"city\":\"오사카\"}";

pub const SAMPLE_TITLE_3: &'static str = "인천국제공항";

pub const SAMPLE_BODY_3: &'static str = "인천국제공항(仁川國際空港, Incheon International Airport, IATA: ICN, ICAO: RKSI)은 대한민국 인천광역시 중구 운서동에 있는 국제공항이다. 2001년 3월 29일 개항하였다.";

pub const SAMPLE_METADATA_3: &'static str = "{\"country\":\"한국\",\"iata\":\"ICN\",\"icao\":\"RKSI\",\"city\":\"인천\"}";

pub const SAMPLE_TITLE_4: &'static str = "김포국제공항";

pub const SAMPLE_BODY_4: &'static str = "김포국제공항(金浦國際空港, Gimpo International Airport, IATA: GMP, ICAO: RKSS)은 대한민국 서울특별시 강서구 공항동에 있는 국제공항이다. 서울 도심에서 서쪽으로 약 15km 떨어져 있다.";

pub const SAMPLE_METADATA_4: &'static str = "{\"country\":\"한국\",\"iata\":\"GMP\",\"icao\":\"RKSS\",\"city\":\"서울\"}";

pub const SAMPLE_TITLE_5: &'static str = "제주국제공항";

pub const SAMPLE_BODY_5: &'static str = "제주국제공항(濟州國際空港, Jeju International Airport, IATA: CJU, ICAO: RKPC)은 대한민국 제주특별자치도 제주시 용담동에 있는 국제공항이다. 한국에서 가장 많은 승객이 이용하는 공항이다.";

pub const SAMPLE_METADATA_5: &'static str = "{\"country\":\"한국\",\"iata\":\"CJU\",\"icao\":\"RKPC\",\"city\":\"제주\"}";

pub const SAMPLE_TITLE_6: &'static str = "싱가포르 창이공항";

pub const SAMPLE_BODY_6: &'static str = "싱가포르 창이공항(Singapore Changi Airport, IATA: SIN, ICAO: WSSS)은 싱가포르에 있는 국제공항이다. 세계적으로 유명한 허브공항이며, 최고의 서비스로 여러 차례 수상한 바 있다.";

pub const SAMPLE_METADATA_6: &'static str = "{\"country\":\"싱가포르\",\"iata\":\"SIN\",\"icao\":\"WSSS\",\"city\":\"싱가포르\"}";

pub const SAMPLE_TITLE_7: &'static str = "홍콩국제공항";

pub const SAMPLE_BODY_7: &'static str = "홍콩국제공항(香港國際機場, Hong Kong International Airport, IATA: HKG, ICAO: VHHH)은 중화인민공화국 홍콩특별행정구에 있는 국제공항이다. 란타우섬 북쪽 해상의 인공섬에 위치한다.";

pub const SAMPLE_METADATA_7: &'static str = "{\"country\":\"홍콩\",\"iata\":\"HKG\",\"icao\":\"VHHH\",\"city\":\"홍콩\"}";

pub const SAMPLE_TITLE_8: &'static str = "東京国際空港";

pub const SAMPLE_BODY_8: &'static str = "東京国際空港（とうきょうこくさいくうこう）は、東京都大田区にある日本最大の空港である。通称は羽田空港。国内線・国際線ともに多くの路線を持つ重要な拠点空港である。";

pub const SAMPLE_METADATA_8: &'static str = "{\"country\":\"日本\",\"iata\":\"HND\",\"icao\":\"RJTT\",\"city\":\"東京\",\"language\":\"ja\"}";

pub const SAMPLE_TITLE_9: &'static str = "関西国際空港";

pub const SAMPLE_BODY_9: &'static str = "関西国際空港（かんさいこくさいくうこう）は、大阪府泉佐野市にある国際空港である。愛称は「関空」。大阪湾の人工島に建設され、24時間運用可能な空港として知られている。";

pub const SAMPLE_METADATA_9: &'static str = "{\"country\":\"日本\",\"iata\":\"KIX\",\"icao\":\"RJBB\",\"city\":\"大阪\",\"language\":\"ja\"}";

pub const SAMPLE_TITLE_10: &'static str = "中部国際空港";

pub const SAMPLE_BODY_10: &'static str = "中部国際空港（ちゅうぶこくさいくうこう）は、愛知県常滑市にある国際空港である。愛称はセントレア。名古屋の玄関口として、中部地方の経済発展に貢献している。";

pub const SAMPLE_METADATA_10: &'static str = "{\"country\":\"日本\",\"iata\":\"NGO\",\"icao\":\"RJGG\",\"city\":\"名古屋\",\"language\":\"ja\"}";

pub const SAMPLE_TITLE_11: &'static str = "北京首都国际机场";

pub const SAMPLE_BODY_11: &'static str = "北京首都国际机场是中国最繁忙的机场之一，位于北京市顺义区。作为中国国际航空的主要枢纽，连接世界各地的重要航线。机场设施完善，服务优质。";

pub const SAMPLE_METADATA_11: &'static str = "{\"country\":\"中国\",\"iata\":\"PEK\",\"icao\":\"ZBAA\",\"city\":\"北京\",\"language\":\"zh\"}";

pub const SAMPLE_TITLE_12: &'static str = "上海浦东国际机场";

pub const SAMPLE_BODY_12: &'static str = "上海浦东国际机场是中国三大门户复合枢纽之一，位于上海市浦东新区。是上海两座国际机场之一，主要服务国际航班。机场现代化程度高，吞吐量巨大。";

pub const SAMPLE_METADATA_12: &'static str = "{\"country\":\"中国\",\"iata\":\"PVG\",\"icao\":\"ZSPD\",\"city\":\"上海\",\"language\":\"zh\"}";

pub const SAMPLE_TITLE_13: &'static str = "广州白云国际机场";

pub const SAMPLE_BODY_13: &'static str = "广州白云国际机场位于广州市白云区，是中国三大航空枢纽之一。作为华南地区最大的交通枢纽，连接国内外众多城市。机场配套设施齐全，交通便利。";

pub const SAMPLE_METADATA_13: &'static str = "{\"country\":\"中国\",\"iata\":\"CAN\",\"icao\":\"ZGGG\",\"city\":\"广州\",\"language\":\"zh\"}";

pub const SAMPLE_TITLE_14: &'static str = "우리 할아버지";

pub const SAMPLE_BODY_14: &'static str = "우리 할아버지는 항상 아버지에게 좋은 가르침을 주셨다. 할머니와 함께 시골에서 농사를 지으며 평화롭게 살고 계신다.";

pub const SAMPLE_METADATA_14: &'static str = "{\"category\":\"가족\",\"language\":\"ko\"}";

/// A sample document: no identity of its own, and one text each for title,
/// body and metadata.
pub open spec fn sample(title: Seq<char>, body: Seq<char>, metadata: Seq<char>) -> InputView {
    InputView { id: Seq::empty(), title, body, metadata }
}

/// The sample documents: airports of Japan, Korea, Singapore, Hong Kong and
/// China, described in Korean, Japanese and Chinese, and one Korean text on
/// a family.
pub open spec fn sample_inputs() -> Seq<InputView> {
    seq![
        sample(SAMPLE_TITLE_0@, SAMPLE_BODY_0@, SAMPLE_METADATA_0@),
        sample(SAMPLE_TITLE_1@, SAMPLE_BODY_1@, SAMPLE_METADATA_1@),
        sample(SAMPLE_TITLE_2@, SAMPLE_BODY_2@, SAMPLE_METADATA_2@),
        sample(SAMPLE_TITLE_3@, SAMPLE_BODY_3@, SAMPLE_METADATA_3@),
        sample(SAMPLE_TITLE_4@, SAMPLE_BODY_4@, SAMPLE_METADATA_4@),
        sample(SAMPLE_TITLE_5@, SAMPLE_BODY_5@, SAMPLE_METADATA_5@),
        sample(SAMPLE_TITLE_6@, SAMPLE_BODY_6@, SAMPLE_METADATA_6@),
        sample(SAMPLE_TITLE_7@, SAMPLE_BODY_7@, SAMPLE_METADATA_7@),
        sample(SAMPLE_TITLE_8@, SAMPLE_BODY_8@, SAMPLE_METADATA_8@),
        sample(SAMPLE_TITLE_9@, SAMPLE_BODY_9@, SAMPLE_METADATA_9@),
        sample(SAMPLE_TITLE_10@, SAMPLE_BODY_10@, SAMPLE_METADATA_10@),
        sample(SAMPLE_TITLE_11@, SAMPLE_BODY_11@, SAMPLE_METADATA_11@),
        sample(SAMPLE_TITLE_12@, SAMPLE_BODY_12@, SAMPLE_METADATA_12@),
        sample(SAMPLE_TITLE_13@, SAMPLE_BODY_13@, SAMPLE_METADATA_13@),
        sample(SAMPLE_TITLE_14@, SAMPLE_BODY_14@, SAMPLE_METADATA_14@),
    ]
}

fn sample_input(title: &str, body: &str, metadata: &str) -> (input: DocumentInput)
    ensures
        input@ == sample(title@, body@, metadata@),
{
    DocumentInput {
        id: String::new(),
        title: String::from_str(title),
        body: String::from_str(body),
        metadata: String::from_str(metadata),
    }
}

/// Lists the sample documents.
pub fn sample_documents() -> (documents: Vec<DocumentInput>)
    ensures
        inputs_view(documents@) == sample_inputs(),
        documents@.len() == SAMPLE_COUNT,
{
    let mut documents: Vec<DocumentInput> = Vec::new();
    documents.push(sample_input(SAMPLE_TITLE_0, SAMPLE_BODY_0, SAMPLE_METADATA_0));
    documents.push(sample_input(SAMPLE_TITLE_1, SAMPLE_BODY_1, SAMPLE_METADATA_1));
    documents.push(sample_input(SAMPLE_TITLE_2, SAMPLE_BODY_2, SAMPLE_METADATA_2));
    documents.push(sample_input(SAMPLE_TITLE_3, SAMPLE_BODY_3, SAMPLE_METADATA_3));
    documents.push(sample_input(SAMPLE_TITLE_4, SAMPLE_BODY_4, SAMPLE_METADATA_4));
    documents.push(sample_input(SAMPLE_TITLE_5, SAMPLE_BODY_5, SAMPLE_METADATA_5));
    documents.push(sample_input(SAMPLE_TITLE_6, SAMPLE_BODY_6, SAMPLE_METADATA_6));
    documents.push(sample_input(SAMPLE_TITLE_7, SAMPLE_BODY_7, SAMPLE_METADATA_7));
    documents.push(sample_input(SAMPLE_TITLE_8, SAMPLE_BODY_8, SAMPLE_METADATA_8));
    documents.push(sample_input(SAMPLE_TITLE_9, SAMPLE_BODY_9, SAMPLE_METADATA_9));
    documents.push(sample_input(SAMPLE_TITLE_10, SAMPLE_BODY_10, SAMPLE_METADATA_10));
    documents.push(sample_input(SAMPLE_TITLE_11, SAMPLE_BODY_11, SAMPLE_METADATA_11));
    documents.push(sample_input(SAMPLE_TITLE_12, SAMPLE_BODY_12, SAMPLE_METADATA_12));
    documents.push(sample_input(SAMPLE_TITLE_13, SAMPLE_BODY_13, SAMPLE_METADATA_13));
    documents.push(sample_input(SAMPLE_TITLE_14, SAMPLE_BODY_14, SAMPLE_METADATA_14));
    assert(inputs_view(documents@) =~= sample_inputs());
    documents
}

} // verus!
