//! The download orchestration core: one state machine that downloads all
//! images of a single item, and one that walks the pages of a tag search.
//!
//! The machines make every decision: whether an item's skip mark gates it
//! out, when the cooldown pause falls, that per-variant failures never
//! abort an item, that an item failure never aborts the crawl, and that a
//! page-fetch failure always does.  A driver outside the library performs
//! the network and filesystem actions the machines emit and feeds each
//! outcome back as an event.

use crate::artworks::images::PixivImage;
use crate::artworks::tags::SearchIllustration;
use crate::artworks::PixivArtwork;
use crate::errors::PixivError;
use vstd::prelude::*;

verus! {

/// Where the download of one item stands.
#[derive(Debug)]
pub enum ItemPhase {
    /// Ask the skip-mark store whether the item was already processed.
    CheckMark,
    /// Ask the listing endpoint for the item's image variants.
    Resolving,
    /// Apply the cooldown pause before the expensive downloads.
    Pausing { variants: Vec<PixivImage> },
    /// Every variant is being downloaded concurrently.
    Downloading { variants: Vec<PixivImage> },
    /// Write the skip mark; every download attempt has returned.
    Committing { count: usize },
    /// The item ended; `count` variants were attempted (zero when the
    /// skip mark was already present).
    Done { count: usize },
    /// The item ended early: the variant listing or the skip-mark write
    /// failed, and no skip mark is left behind.
    Failed { error: PixivError },
}

/// What a driver reports back to the per-item machine.
#[derive(Debug)]
pub enum ItemEvent {
    /// Whether the item's skip mark already exists.
    MarkChecked { present: bool },
    /// The listing endpoint answered with the item's variants.
    Resolved { variants: Vec<PixivImage> },
    /// The listing call failed: transport failure or remote rejection.
    ResolveFailed { error: PixivError },
    /// The cooldown pause has elapsed.
    Paused,
    /// Every concurrent download attempt has returned; `delivered` holds
    /// one success flag per attempt, in no particular order.
    DownloadsJoined { delivered: Vec<bool> },
    /// The skip mark was written.
    MarkCommitted,
    /// Writing the skip mark failed.
    CommitFailed { error: PixivError },
}

/// What the per-item machine asks a driver to do next.
#[derive(Copy, Clone, Debug, PartialEq, Eq, Structural)]
pub enum ItemAction {
    /// Test whether the skip-mark file exists.
    QuerySkipMark,
    /// Call the image-listing endpoint.
    ResolveImages,
    /// Sleep for the sampled cooldown.
    Pause,
    /// Download every held variant concurrently and join the attempts.
    DownloadAll,
    /// Create the skip-mark file.
    CommitMark,
    /// Nothing: the item ended.
    Idle,
}

/// How one event advances an item phase.  An event that does not answer
/// the pending action leaves the phase alone.
pub open spec fn item_step(phase: ItemPhase, event: ItemEvent) -> ItemPhase {
    match (phase, event) {
        (ItemPhase::CheckMark, ItemEvent::MarkChecked { present }) => if present {
            ItemPhase::Done { count: 0 }
        } else {
            ItemPhase::Resolving
        },
        (ItemPhase::Resolving, ItemEvent::Resolved { variants }) => ItemPhase::Pausing { variants },
        (ItemPhase::Resolving, ItemEvent::ResolveFailed { error }) => ItemPhase::Failed { error },
        (ItemPhase::Pausing { variants }, ItemEvent::Paused) => ItemPhase::Downloading { variants },
        (
            ItemPhase::Downloading { variants },
            ItemEvent::DownloadsJoined { .. },
        ) => ItemPhase::Committing { count: variants@.len() as usize },
        (ItemPhase::Committing { count }, ItemEvent::MarkCommitted) => ItemPhase::Done { count },
        (
            ItemPhase::Committing { .. },
            ItemEvent::CommitFailed { error },
        ) => ItemPhase::Failed { error },
        (p, _) => p,
    }
}

/// The action pending in an item phase.
pub open spec fn spec_item_action(phase: ItemPhase) -> ItemAction {
    match phase {
        ItemPhase::CheckMark => ItemAction::QuerySkipMark,
        ItemPhase::Resolving => ItemAction::ResolveImages,
        ItemPhase::Pausing { .. } => ItemAction::Pause,
        ItemPhase::Downloading { .. } => ItemAction::DownloadAll,
        ItemPhase::Committing { .. } => ItemAction::CommitMark,
        ItemPhase::Done { .. } => ItemAction::Idle,
        ItemPhase::Failed { .. } => ItemAction::Idle,
    }
}

/// The download of one item: the skip gate, the variant listing, the
/// cooldown, the concurrent fan-out, and the final skip-mark commit.
#[derive(Debug)]
pub struct ItemDownload {
    pub id: u64,
    pub phase: ItemPhase,
}

impl ItemDownload {
    /// A fresh download of `artwork`, standing before the skip gate.
    pub fn new(artwork: &PixivArtwork) -> (m: Self)
        ensures
            m.id == artwork.id,
            m.phase == ItemPhase::CheckMark,
    {
        ItemDownload { id: artwork.id, phase: ItemPhase::CheckMark }
    }

    /// What a driver must do next for this item.
    pub fn next_action(&self) -> (a: ItemAction)
        ensures
            a == spec_item_action(self.phase),
    {
        match &self.phase {
            ItemPhase::CheckMark => ItemAction::QuerySkipMark,
            ItemPhase::Resolving => ItemAction::ResolveImages,
            ItemPhase::Pausing { .. } => ItemAction::Pause,
            ItemPhase::Downloading { .. } => ItemAction::DownloadAll,
            ItemPhase::Committing { .. } => ItemAction::CommitMark,
            ItemPhase::Done { .. } => ItemAction::Idle,
            ItemPhase::Failed { .. } => ItemAction::Idle,
        }
    }

    /// The variants the machine holds while pausing or downloading.
    pub fn variants(&self) -> (v: Option<&Vec<PixivImage>>)
        ensures
            self.phase matches ItemPhase::Pausing { variants } ==> (v matches Some(u) && *u
                == variants),
            self.phase matches ItemPhase::Downloading { variants } ==> (v matches Some(u) && *u
                == variants),
    {
        match &self.phase {
            ItemPhase::Pausing { variants } => Some(variants),
            ItemPhase::Downloading { variants } => Some(variants),
            _ => None,
        }
    }

    /// Advances the item by one reported event.
    pub fn step(self, event: ItemEvent) -> (m: Self)
        ensures
            m.id == self.id,
            m.phase == item_step(self.phase, event),
    {
        let ItemDownload { id, phase } = self;
        let next = match (phase, event) {
            (ItemPhase::CheckMark, ItemEvent::MarkChecked { present }) => {
                if present {
                    ItemPhase::Done { count: 0 }
                } else {
                    ItemPhase::Resolving
                }
            },
            (ItemPhase::Resolving, ItemEvent::Resolved { variants }) => ItemPhase::Pausing {
                variants,
            },
            (ItemPhase::Resolving, ItemEvent::ResolveFailed { error }) => ItemPhase::Failed {
                error,
            },
            (ItemPhase::Pausing { variants }, ItemEvent::Paused) => ItemPhase::Downloading {
                variants,
            },
            (ItemPhase::Downloading { variants }, ItemEvent::DownloadsJoined { .. }) => {
                let count = variants.len();
                ItemPhase::Committing { count }
            },
            (ItemPhase::Committing { count }, ItemEvent::MarkCommitted) => ItemPhase::Done {
                count,
            },
            (ItemPhase::Committing { .. }, ItemEvent::CommitFailed { error }) => ItemPhase::Failed {
                error,
            },
            (p, _) => p,
        };
        ItemDownload { id, phase: next }
    }

    /// The result an ended item reports: the attempted variant count, or
    /// the item's error.  `None` while the item still runs.
    pub fn outcome(self) -> (r: Option<Result<usize, PixivError>>)
        ensures
            self.phase matches ItemPhase::Done { count } ==> r == Some(
                Ok::<usize, PixivError>(count),
            ),
            self.phase matches ItemPhase::Failed { error } ==> r == Some(
                Err::<usize, PixivError>(error),
            ),
            !(self.phase is Done) && !(self.phase is Failed) ==> r is None,
    {
        match self.phase {
            ItemPhase::Done { count } => Some(Ok(count)),
            ItemPhase::Failed { error } => Some(Err(error)),
            _ => None,
        }
    }
}

/// A present skip mark ends the item at once with a count of zero, and an
/// ended item asks for nothing more: no variant listing and no download
/// is ever issued for an already-processed item.
pub proof fn lemma_present_mark_short_circuits(event: ItemEvent)
    requires
        event == (ItemEvent::MarkChecked { present: true }),
    ensures
        item_step(ItemPhase::CheckMark, event) == (ItemPhase::Done { count: 0 }),
        spec_item_action(item_step(ItemPhase::CheckMark, event)) == ItemAction::Idle,
{
}

/// The variant listing is reached only through an absent skip mark: a
/// step lands in `Resolving` just when the store reports no mark.
pub proof fn lemma_resolve_needs_absent_mark(phase: ItemPhase, event: ItemEvent)
    ensures
        (item_step(phase, event) is Resolving && !(phase is Resolving)) ==> (phase is CheckMark
            && event == (ItemEvent::MarkChecked { present: false })),
{
}

/// The skip mark is committed only once every download attempt has
/// returned: the one way into `Committing` is joining the downloads.
pub proof fn lemma_commit_follows_joined_downloads(phase: ItemPhase, event: ItemEvent)
    ensures
        (item_step(phase, event) is Committing && !(phase is Committing)) ==> (phase is Downloading
            && event is DownloadsJoined),
{
}

/// The concurrent downloads start only once the cooldown pause has
/// elapsed: the one way into `Downloading` is the pause ending, so the
/// pacing falls between the cheap listing call and the expensive
/// downloads, once per item.
pub proof fn lemma_downloads_follow_pause(phase: ItemPhase, event: ItemEvent)
    ensures
        (item_step(phase, event) is Downloading && !(phase is Downloading)) ==> (phase is Pausing
            && event is Paused),
{
}

/// An ended item stays ended: no later event revives it, so nothing more
/// is ever asked of a driver for it.
pub proof fn lemma_ended_items_stay_ended(phase: ItemPhase, event: ItemEvent)
    ensures
        phase is Done ==> item_step(phase, event) == phase,
        phase is Failed ==> item_step(phase, event) == phase,
{
}

/// However the individual download attempts fared, the item proceeds to
/// commit its skip mark with the full attempted count: per-variant
/// failures are tolerated and never change the item's result.
pub proof fn lemma_outcomes_do_not_matter(variants: Vec<PixivImage>, a: Vec<bool>, b: Vec<bool>)
    ensures
        item_step(ItemPhase::Downloading { variants }, ItemEvent::DownloadsJoined { delivered: a })
            == item_step(
            ItemPhase::Downloading { variants },
            ItemEvent::DownloadsJoined { delivered: b },
        ),
        item_step(ItemPhase::Downloading { variants }, ItemEvent::DownloadsJoined { delivered: a })
            == (ItemPhase::Committing { count: variants@.len() as usize }),
{
}

/// The phase an item reaches after a whole trace of events.
pub open spec fn item_run(phase: ItemPhase, events: Seq<ItemEvent>) -> ItemPhase
    decreases events.len(),
{
    if events.len() == 0 {
        phase
    } else {
        item_run(item_step(phase, events[0]), events.drop_first())
    }
}

/// An ended item stays ended under any whole trace of further events.
pub proof fn lemma_ended_items_stay_ended_forever(phase: ItemPhase, events: Seq<ItemEvent>)
    requires
        phase is Done || phase is Failed,
    ensures
        item_run(phase, events) == phase,
    decreases events.len(),
{
    if events.len() > 0 {
        lemma_ended_items_stay_ended(phase, events[0]);
        lemma_ended_items_stay_ended_forever(phase, events.drop_first());
    }
}

/// Once the store reports a present skip mark, no trace of events ever
/// moves the item again: it rests at a count of zero and asks a driver
/// for nothing, so a second crawl issues no listing call and no download
/// for an item that completed before.
pub proof fn lemma_marked_item_stays_idle(events: Seq<ItemEvent>)
    ensures
        item_run(
            item_step(ItemPhase::CheckMark, ItemEvent::MarkChecked { present: true }),
            events,
        ) == (ItemPhase::Done { count: 0 }),
        spec_item_action(
            item_run(
                item_step(ItemPhase::CheckMark, ItemEvent::MarkChecked { present: true }),
                events,
            ),
        ) == ItemAction::Idle,
{
    lemma_ended_items_stay_ended_forever(ItemPhase::Done { count: 0 }, events);
}

/// Where the crawl of one tag search stands.
#[derive(Debug)]
pub enum CrawlPhase {
    /// Fetch the first page, which announces the page count.
    FetchFirst,
    /// Work through a fetched page; `next` points at a non-sentinel item.
    Scanning { page: u32, last: u32, ids: Vec<u64>, next: usize },
    /// Fetch page `page` of `last`.
    FetchNext { page: u32, last: u32 },
    /// Every page was worked through.
    Finished,
    /// A page fetch failed; the crawl ends with this error.
    CrawlFailed { error: PixivError },
}

/// What a driver reports back to the crawl machine.
#[derive(Debug)]
pub enum CrawlEvent {
    /// A page arrived: its item ids in page order, and the last-page
    /// index it announces.
    PageFetched { ids: Vec<u64>, last_page: u32 },
    /// The page fetch failed: transport failure or remote rejection.
    PageFailed { error: PixivError },
    /// The pending item finished with `count` attempted variants.
    ItemDone { count: usize },
    /// The pending item failed; the crawl logs it and moves on.
    ItemFailed { error: PixivError },
}

/// What the crawl machine asks a driver to do next.
#[derive(Copy, Clone, Debug, PartialEq, Eq, Structural)]
pub enum CrawlAction {
    /// Fetch page `page` of the search.
    FetchPage { page: u32 },
    /// Run the whole per-item download for item `id`.
    DownloadItem { id: u64 },
    /// Nothing: the crawl ended.
    Idle,
}

/// The index of the first non-sentinel id at or after `from`, or the
/// length when no downloadable item remains.
pub open spec fn first_content(ids: Seq<u64>, from: int) -> int
    decreases ids.len() - from,
{
    if from < 0 || from >= ids.len() {
        ids.len() as int
    } else if ids[from] != 0 {
        from
    } else {
        first_content(ids, from + 1)
    }
}

/// What [`first_content`] points at: a non-sentinel id, with nothing but
/// sentinels before it from `from` on.
pub proof fn lemma_first_content(ids: Seq<u64>, from: int)
    requires
        0 <= from <= ids.len(),
    ensures
        from <= first_content(ids, from) <= ids.len(),
        first_content(ids, from) < ids.len() ==> ids[first_content(ids, from)] != 0,
        forall|j: int| from <= j < first_content(ids, from) ==> ids[j] == 0,
    decreases ids.len() - from,
{
    if from < ids.len() && ids[from] == 0 {
        lemma_first_content(ids, from + 1);
    }
}

/// The phase a crawl takes up after a page arrives or an item ends:
/// scanning at the next non-sentinel item of the page, else fetching the
/// next page, else finished.
pub open spec fn scan_from(page: u32, last: u32, ids: Vec<u64>, from: int) -> CrawlPhase {
    if first_content(ids@, from) < ids@.len() {
        CrawlPhase::Scanning { page, last, ids, next: first_content(ids@, from) as usize }
    } else if page < last {
        CrawlPhase::FetchNext { page: (page + 1) as u32, last }
    } else {
        CrawlPhase::Finished
    }
}

/// How one event advances a crawl phase.  The page count announced by the
/// first page governs the whole crawl; later pages' announcements are
/// ignored.  An event that does not answer the pending action leaves the
/// phase alone.
pub open spec fn crawl_step(phase: CrawlPhase, event: CrawlEvent) -> CrawlPhase {
    match (phase, event) {
        (CrawlPhase::FetchFirst, CrawlEvent::PageFetched { ids, last_page }) => scan_from(
            1,
            last_page,
            ids,
            0,
        ),
        (CrawlPhase::FetchFirst, CrawlEvent::PageFailed { error }) => CrawlPhase::CrawlFailed {
            error,
        },
        (CrawlPhase::FetchNext { page, last }, CrawlEvent::PageFetched { ids, .. }) => scan_from(
            page,
            last,
            ids,
            0,
        ),
        (
            CrawlPhase::FetchNext { .. },
            CrawlEvent::PageFailed { error },
        ) => CrawlPhase::CrawlFailed { error },
        (
            CrawlPhase::Scanning { page, last, ids, next },
            CrawlEvent::ItemDone { .. },
        ) => scan_from(page, last, ids, next + 1),
        (
            CrawlPhase::Scanning { page, last, ids, next },
            CrawlEvent::ItemFailed { .. },
        ) => scan_from(page, last, ids, next + 1),
        (p, _) => p,
    }
}

/// The action pending in a crawl phase.
pub open spec fn spec_crawl_action(phase: CrawlPhase) -> CrawlAction {
    match phase {
        CrawlPhase::FetchFirst => CrawlAction::FetchPage { page: 1 },
        CrawlPhase::Scanning { ids, next, .. } => CrawlAction::DownloadItem {
            id: ids@[next as int],
        },
        CrawlPhase::FetchNext { page, .. } => CrawlAction::FetchPage { page },
        CrawlPhase::Finished => CrawlAction::Idle,
        CrawlPhase::CrawlFailed { .. } => CrawlAction::Idle,
    }
}

/// A crawl phase is well formed when a scan always points at a
/// non-sentinel item inside its page.
pub open spec fn crawl_phase_wf(phase: CrawlPhase) -> bool {
    phase matches CrawlPhase::Scanning { ids, next, .. } ==> (next < ids@.len() && ids@[
        next as int
    ] != 0)
}

fn scan_phase(page: u32, last: u32, ids: Vec<u64>, from: usize) -> (p: CrawlPhase)
    requires
        from <= ids@.len(),
    ensures
        p == scan_from(page, last, ids, from as int),
        crawl_phase_wf(p),
{
    proof {
        lemma_first_content(ids@, from as int);
    }
    let mut k = from;
    while k < ids.len() && ids[k] == 0
        invariant
            from <= k <= ids@.len(),
            first_content(ids@, from as int) == first_content(ids@, k as int),
        decreases ids@.len() - k,
    {
        k = k + 1;
    }
    proof {
        lemma_first_content(ids@, k as int);
    }
    if k < ids.len() {
        CrawlPhase::Scanning { page, last, ids, next: k }
    } else if page < last {
        CrawlPhase::FetchNext { page: page + 1, last }
    } else {
        CrawlPhase::Finished
    }
}

/// The crawl of one tag search: the query handed to every page fetch and
/// the machine's phase.
#[derive(Debug)]
pub struct SearchCrawl {
    pub params: SearchIllustration,
    pub phase: CrawlPhase,
}

impl SearchCrawl {
    /// A crawl phase is well formed when a scan always points at a
    /// non-sentinel item inside its page.
    pub open spec fn wf(self) -> bool {
        crawl_phase_wf(self.phase)
    }

    /// A fresh crawl of `params`, about to fetch the first page.
    pub fn new(params: SearchIllustration) -> (m: Self)
        ensures
            m.params == params,
            m.phase == CrawlPhase::FetchFirst,
            m.wf(),
    {
        SearchCrawl { params, phase: CrawlPhase::FetchFirst }
    }

    /// What a driver must do next for this crawl.  A download is never
    /// asked for the sentinel id zero.
    pub fn next_action(&self) -> (a: CrawlAction)
        requires
            self.wf(),
        ensures
            a == spec_crawl_action(self.phase),
            a matches CrawlAction::DownloadItem { id } ==> id != 0,
    {
        match &self.phase {
            CrawlPhase::FetchFirst => CrawlAction::FetchPage { page: 1 },
            CrawlPhase::Scanning { ids, next, .. } => CrawlAction::DownloadItem {
                id: ids[*next],
            },
            CrawlPhase::FetchNext { page, .. } => CrawlAction::FetchPage { page: *page },
            CrawlPhase::Finished => CrawlAction::Idle,
            CrawlPhase::CrawlFailed { .. } => CrawlAction::Idle,
        }
    }

    /// Advances the crawl by one reported event.
    pub fn step(self, event: CrawlEvent) -> (m: Self)
        requires
            self.wf(),
        ensures
            m.params == self.params,
            m.phase == crawl_step(self.phase, event),
            m.wf(),
    {
        let SearchCrawl { params, phase } = self;
        let next = match (phase, event) {
            (CrawlPhase::FetchFirst, CrawlEvent::PageFetched { ids, last_page }) => scan_phase(
                1,
                last_page,
                ids,
                0,
            ),
            (CrawlPhase::FetchFirst, CrawlEvent::PageFailed { error }) => CrawlPhase::CrawlFailed {
                error,
            },
            (CrawlPhase::FetchNext { page, last }, CrawlEvent::PageFetched { ids, .. }) => {
                scan_phase(page, last, ids, 0)
            },
            (CrawlPhase::FetchNext { .. }, CrawlEvent::PageFailed { error }) => {
                CrawlPhase::CrawlFailed { error }
            },
            (CrawlPhase::Scanning { page, last, ids, next }, CrawlEvent::ItemDone { .. }) => {
                proof {
                    vstd::std_specs::vec::axiom_spec_len(&ids);
                }
                scan_phase(page, last, ids, next + 1)
            },
            (CrawlPhase::Scanning { page, last, ids, next }, CrawlEvent::ItemFailed { .. }) => {
                proof {
                    vstd::std_specs::vec::axiom_spec_len(&ids);
                }
                scan_phase(page, last, ids, next + 1)
            },
            (p, _) => p,
        };
        SearchCrawl { params, phase: next }
    }

    /// The result an ended crawl reports: success, or the fatal
    /// page-fetch error.  `None` while the crawl still runs.
    pub fn outcome(self) -> (r: Option<Result<(), PixivError>>)
        ensures
            self.phase is Finished ==> r == Some(Ok::<(), PixivError>(())),
            self.phase matches CrawlPhase::CrawlFailed { error } ==> r == Some(
                Err::<(), PixivError>(error),
            ),
            !(self.phase is Finished) && !(self.phase is CrawlFailed) ==> r is None,
    {
        match self.phase {
            CrawlPhase::Finished => Some(Ok(())),
            CrawlPhase::CrawlFailed { error } => Some(Err(error)),
            _ => None,
        }
    }
}

/// Sentinel rows are never downloaded: no well-formed crawl phase ever
/// asks a driver for item zero.
pub proof fn lemma_sentinel_never_downloaded(phase: CrawlPhase)
    requires
        crawl_phase_wf(phase),
    ensures
        spec_crawl_action(phase) matches CrawlAction::DownloadItem { id } ==> id != 0,
{
}

/// Every step keeps a crawl phase well formed.
pub proof fn lemma_crawl_step_preserves_wf(phase: CrawlPhase, event: CrawlEvent)
    requires
        crawl_phase_wf(phase),
    ensures
        crawl_phase_wf(crawl_step(phase, event)),
{
    match (phase, event) {
        (CrawlPhase::FetchFirst, CrawlEvent::PageFetched { ids, .. }) => {
            vstd::std_specs::vec::axiom_spec_len(&ids);
            lemma_first_content(ids@, 0);
        },
        (CrawlPhase::FetchNext { .. }, CrawlEvent::PageFetched { ids, .. }) => {
            vstd::std_specs::vec::axiom_spec_len(&ids);
            lemma_first_content(ids@, 0);
        },
        (CrawlPhase::Scanning { ids, next, .. }, CrawlEvent::ItemDone { .. }) => {
            vstd::std_specs::vec::axiom_spec_len(&ids);
            lemma_first_content(ids@, next + 1);
        },
        (CrawlPhase::Scanning { ids, next, .. }, CrawlEvent::ItemFailed { .. }) => {
            vstd::std_specs::vec::axiom_spec_len(&ids);
            lemma_first_content(ids@, next + 1);
        },
        _ => {},
    }
}

/// The phase a crawl reaches after a whole trace of events.
pub open spec fn crawl_run(phase: CrawlPhase, events: Seq<CrawlEvent>) -> CrawlPhase
    decreases events.len(),
{
    if events.len() == 0 {
        phase
    } else {
        crawl_run(crawl_step(phase, events[0]), events.drop_first())
    }
}

/// A whole trace of events keeps a crawl phase well formed.
pub proof fn lemma_crawl_run_preserves_wf(phase: CrawlPhase, events: Seq<CrawlEvent>)
    requires
        crawl_phase_wf(phase),
    ensures
        crawl_phase_wf(crawl_run(phase, events)),
    decreases events.len(),
{
    if events.len() > 0 {
        lemma_crawl_step_preserves_wf(phase, events[0]);
        lemma_crawl_run_preserves_wf(crawl_step(phase, events[0]), events.drop_first());
    }
}

/// No trace of events, from the start of a crawl, ever asks a driver to
/// download the sentinel item zero.
pub proof fn lemma_no_run_downloads_the_sentinel(events: Seq<CrawlEvent>)
    ensures
        spec_crawl_action(
            crawl_run(CrawlPhase::FetchFirst, events),
        ) matches CrawlAction::DownloadItem { id } ==> id != 0,
{
    lemma_crawl_run_preserves_wf(CrawlPhase::FetchFirst, events);
    lemma_sentinel_never_downloaded(crawl_run(CrawlPhase::FetchFirst, events));
}

/// A failed page fetch is fatal: the crawl ends at once, carrying the
/// fetch error.
pub proof fn lemma_page_failure_is_fatal(phase: CrawlPhase, error: PixivError)
    requires
        phase is FetchFirst || phase is FetchNext,
    ensures
        crawl_step(phase, CrawlEvent::PageFailed { error }) == (CrawlPhase::CrawlFailed { error }),
{
}

/// A failed item is not fatal: the crawl advances exactly as it does for
/// an item that finished.
pub proof fn lemma_item_failure_is_tolerated(phase: CrawlPhase, count: usize, error: PixivError)
    ensures
        crawl_step(phase, CrawlEvent::ItemFailed { error }) == crawl_step(
            phase,
            CrawlEvent::ItemDone { count },
        ),
{
}

/// An ended crawl stays ended: no later event revives it.
pub proof fn lemma_ended_crawls_stay_ended(phase: CrawlPhase, event: CrawlEvent)
    ensures
        phase is Finished ==> crawl_step(phase, event) == phase,
        phase is CrawlFailed ==> crawl_step(phase, event) == phase,
{
}

/// Pages are fetched in strictly increasing order: whenever a step leaves
/// the crawl about to fetch a page, that page follows the one the crawl
/// was working through, or the fetch was already pending unanswered.
pub proof fn lemma_pages_advance(phase: CrawlPhase, event: CrawlEvent)
    ensures
        crawl_step(phase, event) matches CrawlPhase::FetchNext { page: p2, .. } ==> match phase {
            CrawlPhase::Scanning { page, .. } => p2 == page + 1,
            CrawlPhase::FetchNext { page, .. } => p2 == page + 1 || p2 == page,
            CrawlPhase::FetchFirst => p2 == 2,
            _ => false,
        },
{
}

/// Items of one page are worked through strictly in page order: an item
/// event moves the scan index forward.
pub proof fn lemma_items_advance_in_page_order(
    page: u32,
    last: u32,
    ids: Vec<u64>,
    next: usize,
    event: CrawlEvent,
)
    requires
        event is ItemDone || event is ItemFailed,
        next < ids@.len(),
    ensures
        crawl_step(CrawlPhase::Scanning { page, last, ids, next }, event) matches CrawlPhase::Scanning {
            next: n2,
            ..
        } ==> n2 > next,
{
    vstd::std_specs::vec::axiom_spec_len(&ids);
    lemma_first_content(ids@, next + 1);
}

} // verus!
