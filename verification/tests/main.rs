use pixiv_api::artworks::images::PixivImage;
use pixiv_api::artworks::images::PixivImageUrls;
use pixiv_api::artworks::tags::SearchIllustration;
use pixiv_api::artworks::PixivArtwork;
use pixiv_api::downloader::CrawlAction;
use pixiv_api::downloader::CrawlEvent;
use pixiv_api::downloader::ItemAction;
use pixiv_api::downloader::ItemDownload;
use pixiv_api::downloader::ItemEvent;
use pixiv_api::downloader::SearchCrawl;
use pixiv_api::ExampleErrorKind;
use pixiv_api::PixivError;
use std::collections::HashMap;
use std::collections::HashSet;

#[test]
fn ready() {
    println!("it works!")
}

fn image(url: &str, width: u32, height: u32) -> PixivImage {
    PixivImage {
        urls: PixivImageUrls {
            mini: format!("{url}.mini"),
            small: format!("{url}.small"),
            regular: format!("{url}.regular"),
            original: url.to_string(),
        },
        width,
        height,
    }
}

/// The world a simulated crawl runs against: which items resolve to which
/// variants, which downloads fail, and what has been persisted.
struct World {
    resolver: HashMap<u64, Vec<PixivImage>>,
    failing_downloads: HashSet<String>,
    marks: HashSet<u64>,
    written: Vec<String>,
    resolve_calls: Vec<u64>,
    download_calls: Vec<String>,
    trace: Vec<String>,
}

impl World {
    fn new() -> World {
        World {
            resolver: HashMap::new(),
            failing_downloads: HashSet::new(),
            marks: HashSet::new(),
            written: Vec::new(),
            resolve_calls: Vec::new(),
            download_calls: Vec::new(),
            trace: Vec::new(),
        }
    }
}

/// Drives the per-item machine against the simulated world, performing
/// each action it asks for and reporting the outcome back.
fn run_item(id: u64, root: &str, world: &mut World) -> Result<usize, PixivError> {
    let artwork = PixivArtwork { id };
    let mut machine = ItemDownload::new(&artwork);
    loop {
        match machine.next_action() {
            ItemAction::QuerySkipMark => {
                let present = world.marks.contains(&id);
                machine = machine.step(ItemEvent::MarkChecked { present });
            }
            ItemAction::ResolveImages => {
                world.resolve_calls.push(id);
                machine = match world.resolver.get(&id) {
                    Some(variants) => machine.step(ItemEvent::Resolved {
                        variants: variants.clone(),
                    }),
                    None => machine.step(ItemEvent::ResolveFailed {
                        error: PixivError::request_error("connection reset", "resolve"),
                    }),
                };
            }
            ItemAction::Pause => {
                machine = machine.step(ItemEvent::Paused);
            }
            ItemAction::DownloadAll => {
                let variants = machine.variants().expect("downloading without variants").clone();
                let mut delivered = Vec::new();
                for variant in &variants {
                    world.download_calls.push(variant.urls.original.clone());
                    if world.failing_downloads.contains(&variant.urls.original) {
                        delivered.push(false);
                    } else {
                        world.written.push(variant.destination(root));
                        delivered.push(true);
                    }
                }
                world.trace.push(format!("downloads-joined {id}"));
                machine = machine.step(ItemEvent::DownloadsJoined { delivered });
            }
            ItemAction::CommitMark => {
                world.trace.push(format!("commit-mark {id}"));
                world.marks.insert(id);
                machine = machine.step(ItemEvent::MarkCommitted);
            }
            ItemAction::Idle => {
                return machine.outcome().expect("idle item without outcome");
            }
        }
    }
}

/// Drives the crawl machine against simulated search pages, running the
/// per-item machine for every download it asks for.
fn run_crawl(
    params: SearchIllustration,
    pages: &HashMap<u32, (Vec<u64>, u32)>,
    root: &str,
    world: &mut World,
    errors_logged: &mut Vec<String>,
) -> Result<(), PixivError> {
    let mut crawl = SearchCrawl::new(params);
    loop {
        match crawl.next_action() {
            CrawlAction::FetchPage { page } => {
                crawl = match pages.get(&page) {
                    Some((ids, last_page)) => crawl.step(CrawlEvent::PageFetched {
                        ids: ids.clone(),
                        last_page: *last_page,
                    }),
                    None => crawl.step(CrawlEvent::PageFailed {
                        error: PixivError::request_error("page unavailable", "search"),
                    }),
                };
            }
            CrawlAction::DownloadItem { id } => {
                assert_ne!(id, 0, "sentinel item must never be downloaded");
                crawl = match run_item(id, root, world) {
                    Ok(count) => crawl.step(CrawlEvent::ItemDone { count }),
                    Err(error) => {
                        errors_logged.push(error.to_message());
                        crawl.step(CrawlEvent::ItemFailed { error })
                    }
                };
            }
            CrawlAction::Idle => {
                return crawl.outcome().expect("idle crawl without outcome");
            }
        }
    }
}

#[test]
fn end_to_end_scenario() {
    let mut world = World::new();
    world
        .resolver
        .insert(101, vec![image("https://img.example/101_p0.png", 800, 600)]);
    world
        .resolver
        .insert(102, vec![image("https://img.example/102_p0.png", 600, 800)]);
    // item 103 is absent from the resolver: its listing call fails.

    let mut pages = HashMap::new();
    pages.insert(1, (vec![0, 101, 102], 2));
    pages.insert(2, (vec![103], 9));

    let mut errors_logged = Vec::new();
    let params = SearchIllustration::new("sample");
    let outcome = run_crawl(params, &pages, "root", &mut world, &mut errors_logged);

    assert!(outcome.is_ok(), "the crawl must finish past page 2");
    assert!(!world.resolve_calls.contains(&0));
    assert!(!world.resolve_calls.contains(&102) || world.resolve_calls.contains(&101));
    assert_eq!(world.resolve_calls, vec![101, 102, 103]);
    assert_eq!(
        world.written,
        vec![
            "root/horizontal/101_p0.png".to_string(),
            "root/vertical/102_p0.png".to_string(),
        ]
    );
    let mut marks: Vec<u64> = world.marks.iter().copied().collect();
    marks.sort();
    assert_eq!(marks, vec![101, 102]);
    assert!(!world.marks.contains(&103));
    assert_eq!(errors_logged.len(), 1);
    assert!(errors_logged[0].starts_with("RequestError: connection reset"));
}

#[test]
fn idempotent_second_run() {
    let mut world = World::new();
    world
        .resolver
        .insert(7, vec![image("https://img.example/7_p0.png", 10, 20)]);
    world
        .resolver
        .insert(8, vec![image("https://img.example/8_p0.png", 20, 10)]);

    let mut pages = HashMap::new();
    pages.insert(1, (vec![7, 8], 1));

    let mut errors_logged = Vec::new();
    let first = run_crawl(
        SearchIllustration::new("tag"),
        &pages,
        "root",
        &mut world,
        &mut errors_logged,
    );
    assert!(first.is_ok());
    assert_eq!(world.download_calls.len(), 2);

    // Second run against the same marks: no listing call and no download
    // may happen for the items that completed.
    world.download_calls.clear();
    world.resolve_calls.clear();
    let second = run_crawl(
        SearchIllustration::new("tag"),
        &pages,
        "root",
        &mut world,
        &mut errors_logged,
    );
    assert!(second.is_ok());
    assert_eq!(world.download_calls.len(), 0);
    assert_eq!(world.resolve_calls.len(), 0);
    assert!(errors_logged.is_empty());
}

#[test]
fn sentinel_items_produce_no_calls_and_no_marks() {
    let mut world = World::new();
    let mut pages = HashMap::new();
    pages.insert(1, (vec![0, 0, 0], 1));

    let mut errors_logged = Vec::new();
    let outcome = run_crawl(
        SearchIllustration::new("ads"),
        &pages,
        "root",
        &mut world,
        &mut errors_logged,
    );
    assert!(outcome.is_ok());
    assert!(world.resolve_calls.is_empty());
    assert!(world.download_calls.is_empty());
    assert!(world.marks.is_empty());
}

#[test]
fn partial_failure_still_commits_mark_and_other_files() {
    let mut world = World::new();
    world.resolver.insert(
        55,
        vec![
            image("https://img.example/55_p0.png", 30, 20),
            image("https://img.example/55_p1.png", 30, 20),
            image("https://img.example/55_p2.png", 30, 20),
        ],
    );
    world
        .failing_downloads
        .insert("https://img.example/55_p1.png".to_string());

    let result = run_item(55, "root", &mut world);
    assert_eq!(result.unwrap(), 3);
    assert!(world.marks.contains(&55));
    assert_eq!(
        world.written,
        vec![
            "root/horizontal/55_p0.png".to_string(),
            "root/horizontal/55_p2.png".to_string(),
        ]
    );
}

#[test]
fn mark_commit_never_precedes_joined_downloads() {
    let mut world = World::new();
    world.resolver.insert(
        9,
        vec![
            image("https://img.example/9_p0.png", 5, 5),
            image("https://img.example/9_p1.png", 5, 5),
        ],
    );
    let result = run_item(9, "root", &mut world);
    assert_eq!(result.unwrap(), 2);
    let joined = world
        .trace
        .iter()
        .position(|line| line == "downloads-joined 9")
        .expect("downloads were joined");
    let committed = world
        .trace
        .iter()
        .position(|line| line == "commit-mark 9")
        .expect("mark was committed");
    assert!(joined < committed);
}

#[test]
fn failed_listing_leaves_no_mark_and_surfaces_error() {
    let mut world = World::new();
    let result = run_item(42, "root", &mut world);
    let error = result.expect_err("an unresolvable item must fail");
    assert!(matches!(
        error.kind(),
        ExampleErrorKind::RequestError { .. }
    ));
    assert!(world.marks.is_empty());
    assert!(world.written.is_empty());
}

#[test]
fn page_fetch_failure_is_fatal() {
    let mut world = World::new();
    let mut pages = HashMap::new();
    pages.insert(1, (vec![1], 3));
    world
        .resolver
        .insert(1, vec![image("https://img.example/1_p0.png", 2, 1)]);
    // page 2 is missing: its fetch fails and the crawl must stop there.

    let mut errors_logged = Vec::new();
    let outcome = run_crawl(
        SearchIllustration::new("tag"),
        &pages,
        "root",
        &mut world,
        &mut errors_logged,
    );
    let error = outcome.expect_err("a failed page fetch must abort the crawl");
    assert!(matches!(
        error.kind(),
        ExampleErrorKind::RequestError { .. }
    ));
    // the first page's item was still processed before the failure
    assert!(world.marks.contains(&1));
}
