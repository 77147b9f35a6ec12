use pixiv_api::artworks::collect_ids;
use pixiv_api::artworks::filters::PixiIllustrationType;
use pixiv_api::artworks::filters::PixiMatchMode;
use pixiv_api::artworks::filters::PixiSafeMode;
use pixiv_api::artworks::filters::PixivImageRatio;
use pixiv_api::artworks::images::Orientation;
use pixiv_api::artworks::images::PixivImage;
use pixiv_api::artworks::images::PixivImageUrls;
use pixiv_api::artworks::tags::SearchIllustration;
use pixiv_api::artworks::ExtraData;
use pixiv_api::artworks::Illust;
use pixiv_api::artworks::IllustData;
use pixiv_api::artworks::Meta;
use pixiv_api::artworks::PixivArtwork;
use pixiv_api::artworks::PixivClient;
use pixiv_api::artworks::PixivResponse;
use pixiv_api::artworks::Popular;
use pixiv_api::artworks::SearchTagPage;
use pixiv_api::artworks::Struct3;
use pixiv_api::artworks::ZoneConfig;
use pixiv_api::text::file_name;
use pixiv_api::text::join_path;
use pixiv_api::text::parse_decimal_id;
use pixiv_api::text::u64_to_dec;
use pixiv_api::ExampleErrorKind;
use pixiv_api::PixivError;

fn image(url: &str, width: u32, height: u32) -> PixivImage {
    PixivImage {
        urls: PixivImageUrls {
            mini: String::new(),
            small: String::new(),
            regular: String::new(),
            original: url.to_string(),
        },
        width,
        height,
    }
}

#[test]
fn decimal_rendering() {
    assert_eq!(u64_to_dec(0), "0");
    assert_eq!(u64_to_dec(7), "7");
    assert_eq!(u64_to_dec(10), "10");
    assert_eq!(u64_to_dec(118456930), "118456930");
    assert_eq!(u64_to_dec(u64::MAX), "18446744073709551615");
}

#[test]
fn decimal_parsing() {
    assert_eq!(parse_decimal_id("0"), Some(0));
    assert_eq!(parse_decimal_id("118456930"), Some(118456930));
    assert_eq!(parse_decimal_id("+12"), Some(12));
    assert_eq!(parse_decimal_id("007"), Some(7));
    assert_eq!(parse_decimal_id("18446744073709551615"), Some(u64::MAX));
    assert_eq!(parse_decimal_id("18446744073709551616"), None);
    assert_eq!(parse_decimal_id(""), None);
    assert_eq!(parse_decimal_id("+"), None);
    assert_eq!(parse_decimal_id("12a"), None);
    assert_eq!(parse_decimal_id(" 12"), None);
    assert_eq!(parse_decimal_id("-3"), None);
}

#[test]
fn trailing_segment_of_urls() {
    assert_eq!(
        file_name("https://i.pximg.net/img-original/img/2024/05/14/18/23/09/118456930_p0.png"),
        "118456930_p0.png"
    );
    assert_eq!(file_name("plain"), "plain");
    assert_eq!(file_name("ends/with/"), "");
    assert_eq!(file_name(""), "");
}

#[test]
fn path_joining() {
    assert_eq!(join_path("root", "skip"), "root/skip");
    assert_eq!(join_path("", "x"), "/x");
}

#[test]
fn orientation_buckets() {
    assert_eq!(image("u", 800, 600).orientation(), Orientation::Horizontal);
    assert_eq!(image("u", 600, 800).orientation(), Orientation::Vertical);
    assert_eq!(image("u", 512, 512).orientation(), Orientation::Square);
}

#[test]
fn destination_paths_by_orientation() {
    let wide = image("https://img.example/a/wide.png", 800, 600);
    assert_eq!(wide.destination("root"), "root/horizontal/wide.png");
    let tall = image("https://img.example/a/tall.png", 600, 800);
    assert_eq!(tall.destination("root"), "root/vertical/tall.png");
    let square = image("https://img.example/a/square.png", 700, 700);
    assert_eq!(square.destination("root"), "root/square/square.png");
}

#[test]
fn skip_mark_paths() {
    let artwork = PixivArtwork { id: 118456930 };
    assert_eq!(PixivArtwork::skip_dir("root"), "root/skip");
    assert_eq!(artwork.skip_mark_path("root"), "root/skip/118456930");
}

#[test]
fn listing_endpoint() {
    let artwork = PixivArtwork { id: 118456930 };
    assert_eq!(
        artwork.pages_endpoint(),
        "https://www.pixiv.net/ajax/illust/118456930/pages?lang=zh"
    );
    assert_eq!(
        artwork.listing_context(),
        "PixivArtwork::get_image_urls(118456930)"
    );
}

#[test]
fn search_endpoint() {
    let params = SearchIllustration::new("sample");
    assert_eq!(
        params.endpoint(),
        "https://www.pixiv.net/ajax/search/illustrations/sample"
    );
}

#[test]
fn safe_mode_queries() {
    assert_eq!(PixiSafeMode::All.encode_query(), "all");
    assert_eq!(PixiSafeMode::Safe.encode_query(), "safe");
    assert_eq!(PixiSafeMode::R18.encode_query(), "r18");
    assert_eq!(PixiSafeMode::R18G.encode_query(), "r18");
}

#[test]
fn illustration_type_queries() {
    assert_eq!(PixiIllustrationType::All.encode_query(), "all");
    assert_eq!(
        PixiIllustrationType::IllustrationAndIllustration.encode_query(),
        "illust_and_ugoira"
    );
    assert_eq!(PixiIllustrationType::Illustration.encode_query(), "illust");
    assert_eq!(PixiIllustrationType::Animation.encode_query(), "ugoira");
    assert_eq!(PixiIllustrationType::Manga.encode_query(), "manga");
}

#[test]
fn illustration_type_routes() {
    assert_eq!(PixiIllustrationType::All.encode_route(), "artworks");
    assert_eq!(
        PixiIllustrationType::IllustrationAndIllustration.encode_route(),
        "illustrations"
    );
    assert_eq!(
        PixiIllustrationType::Illustration.encode_route(),
        "illustrations"
    );
    assert_eq!(
        PixiIllustrationType::Animation.encode_route(),
        "illustrations"
    );
    assert_eq!(PixiIllustrationType::Manga.encode_route(), "manga");
}

#[test]
fn match_mode_queries() {
    assert_eq!(PixiMatchMode::ExactMatch.encode_query(), "s_tag_full");
    assert_eq!(PixiMatchMode::PartialMatch.encode_query(), "s_tag");
    assert_eq!(PixiMatchMode::TitleOrCaption.encode_query(), "s_tc");
}

#[test]
fn search_builders() {
    let base = SearchIllustration::new("w");
    assert_eq!(base.word, "w");
    assert_eq!(base.order, "data");
    assert_eq!(base.csw, 1);
    assert_eq!(base.page, 1);
    assert_eq!(base.ratio, PixivImageRatio::All);
    assert!(!base.allow_ai);
    assert_eq!(base.min_width, None);
    assert_eq!(base.max_width, None);
    assert_eq!(base.min_height, None);
    assert_eq!(base.max_height, Some(9999));

    let landscape = SearchIllustration::landscape("w");
    assert_eq!(landscape.ratio, PixivImageRatio::Landscape);
    assert_eq!(landscape.min_width, Some(768));
    assert_eq!(landscape.min_height, Some(512));

    let portrait = SearchIllustration::portrait("w");
    assert_eq!(portrait.ratio, PixivImageRatio::Portrait);
    assert_eq!(portrait.min_width, Some(512));
    assert_eq!(portrait.min_height, Some(768));

    let square = SearchIllustration::square("w");
    assert_eq!(square.ratio, PixivImageRatio::All);
    assert_eq!(square.min_width, Some(512));
    assert_eq!(square.min_height, Some(512));
}

#[test]
fn with_page_changes_only_the_page() {
    let base = SearchIllustration::portrait("w");
    let page3 = base.with_page(3);
    assert_eq!(page3.page, 3);
    assert_eq!(page3.word, base.word);
    assert_eq!(page3.order, base.order);
    assert_eq!(page3.ratio, base.ratio);
    assert_eq!(page3.min_width, base.min_width);
    assert_eq!(page3.min_height, base.min_height);
    assert_eq!(page3.max_height, base.max_height);
    assert_eq!(page3.allow_ai, base.allow_ai);
}

#[test]
fn query_pairs_of_a_portrait_search() {
    let pairs = SearchIllustration::portrait("w").query_pairs();
    let expected: Vec<(String, String)> = vec![
        ("word", "w"),
        ("type", "all"),
        ("mode", "all"),
        ("s_mode", "s_tag_full"),
        ("ratio", "-0.5"),
        ("wlt", "512"),
        ("hlt", "768"),
        ("hgt", "9999"),
        ("ai_type", "1"),
        ("p", "1"),
    ]
    .into_iter()
    .map(|(k, v)| (k.to_string(), v.to_string()))
    .collect();
    assert_eq!(pairs, expected);
}

#[test]
fn query_pairs_of_a_landscape_search() {
    let pairs = SearchIllustration::landscape("w").query_pairs();
    let expected: Vec<(String, String)> = vec![
        ("word", "w"),
        ("type", "all"),
        ("mode", "all"),
        ("s_mode", "s_tag_full"),
        ("ratio", "0.5"),
        ("wlt", "768"),
        ("hlt", "512"),
        ("hgt", "9999"),
        ("ai_type", "1"),
        ("p", "1"),
    ]
    .into_iter()
    .map(|(k, v)| (k.to_string(), v.to_string()))
    .collect();
    assert_eq!(pairs, expected);
}

#[test]
fn query_pairs_of_a_plain_search() {
    let mut params = SearchIllustration::new("w");
    params.allow_ai = true;
    params.max_height = None;
    let pairs = params.query_pairs();
    let expected: Vec<(String, String)> = vec![
        ("word", "w"),
        ("type", "all"),
        ("mode", "all"),
        ("s_mode", "s_tag_full"),
        ("p", "1"),
    ]
    .into_iter()
    .map(|(k, v)| (k.to_string(), v.to_string()))
    .collect();
    assert_eq!(pairs, expected);
}

#[test]
fn query_pairs_carry_the_requested_page() {
    let pairs = SearchIllustration::new("w").with_page(3).query_pairs();
    assert!(pairs.contains(&("p".to_string(), "3".to_string())));
    assert_eq!(pairs.last().unwrap(), &("p".to_string(), "3".to_string()));
}

#[test]
fn extras_order_check() {
    let mut data = item(1);
    assert!(data.extras_sorted());
    data.unknown_fields = vec![
        ("alpha".to_string(), serde_json::Value::Null),
        ("beta".to_string(), serde_json::Value::Null),
        ("gamma".to_string(), serde_json::Value::Null),
    ];
    assert!(data.extras_sorted());
    data.unknown_fields = vec![
        ("beta".to_string(), serde_json::Value::Null),
        ("alpha".to_string(), serde_json::Value::Null),
    ];
    assert!(!data.extras_sorted());
    data.unknown_fields = vec![
        ("alpha".to_string(), serde_json::Value::Null),
        ("alpha".to_string(), serde_json::Value::Null),
    ];
    assert!(!data.extras_sorted(), "duplicate keys are not ascending");
}

#[test]
fn cooldown_samples_stay_in_the_configured_range() {
    let client = PixivClient::new("root");
    assert_eq!(client.wait_min_ms, 1000);
    assert_eq!(client.wait_max_ms, 2000);
    let mut distinct = std::collections::HashSet::new();
    for _ in 0..10000 {
        let ms = client.cooldown();
        assert!((1000..2000).contains(&ms));
        distinct.insert(ms);
    }
    assert!(distinct.len() > 1, "uniform sampling must not be constant");
}

#[test]
fn user_agent_comes_from_the_pool() {
    let client = PixivClient::new("root");
    let agent = client.user_agent();
    assert!(client.agents.contains(agent));
    assert_eq!(
        agent,
        "Mozilla/5.0 (Windows NT 10.0; Win64; x64) AppleWebKit/537.36 (KHTML, like Gecko) Chrome/96.0.4664.110 Safari/537.36"
    );
}

#[test]
fn cookie_replacement() {
    let mut client = PixivClient::new("root");
    assert_eq!(client.cookie, "");
    client.use_cookie("PHPSESSID=abc");
    assert_eq!(client.cookie, "PHPSESSID=abc");
    assert_eq!(client.root, "root");
}

#[test]
fn response_throw_on_success() {
    let response = PixivResponse { error: false, message: String::new(), body: 5u32 };
    assert_eq!(response.throw("ctx").unwrap(), 5);
}

#[test]
fn response_throw_on_remote_rejection() {
    let response =
        PixivResponse { error: true, message: "rate limited".to_string(), body: 5u32 };
    let error = response.throw("SearchTag::request").unwrap_err();
    match error.kind() {
        ExampleErrorKind::RequestError { message, context } => {
            assert_eq!(message, "rate limited");
            assert_eq!(context, "SearchTag::request");
        }
        other => panic!("unexpected kind: {other:?}"),
    }
}

#[test]
fn error_constructors_and_messages() {
    let io = PixivError::io_error("COOKIE not found", "src/COOKIE.TXT");
    match io.kind() {
        ExampleErrorKind::IoError { message, file } => {
            assert_eq!(message, "COOKIE not found");
            assert_eq!(file, "src/COOKIE.TXT");
        }
        other => panic!("unexpected kind: {other:?}"),
    }
    assert_eq!(
        io.to_message(),
        "IoError: COOKIE not found\n    at: src/COOKIE.TXT"
    );

    let request = PixivError::request_error("boom", "here");
    assert_eq!(request.to_message(), "RequestError: boom\n    at: here");

    assert_eq!(
        ExampleErrorKind::UnknownError.to_message(),
        "UnknownError"
    );
}

#[test]
fn error_from_kind_keeps_the_kind() {
    let error = PixivError::from(ExampleErrorKind::UnknownError);
    assert!(matches!(error.kind(), ExampleErrorKind::UnknownError));
}

fn page_with(data: Vec<IllustData>, last_page: u32, total: u64) -> SearchTagPage {
    SearchTagPage {
        illusion: Illust { data, total, last_page, bookmark_ranges: Vec::new() },
        popular: Popular {
            recent: serde_json::Value::Null,
            permanent: serde_json::Value::Null,
        },
        related_tags: Vec::new(),
        tag_translation: serde_json::Value::Null,
        zone_config: ZoneConfig {
            logo: Struct3 { url: String::new() },
            header: Struct3 { url: String::new() },
            footer: Struct3 { url: String::new() },
            infeed: Struct3 { url: String::new() },
        },
        extra_data: ExtraData {
            meta: Meta {
                title: String::new(),
                description: String::new(),
                canonical: String::new(),
                description_header: String::new(),
            },
        },
    }
}

fn item(id: u64) -> IllustData {
    IllustData {
        id,
        tags: Vec::new(),
        title: String::new(),
        description: String::new(),
        width: 0,
        height: 0,
        unknown_fields: Vec::new(),
    }
}

#[test]
fn page_count_and_item_ids() {
    let page = page_with(vec![item(0), item(101), item(102)], 2, 3);
    assert_eq!(page.count_pages().unwrap(), 2);
    assert_eq!(collect_ids(&page), vec![0, 101, 102]);
}
