//! The data model of the search API, the crawl session configuration, and
//! the per-item path and endpoint computations.

use crate::errors::{ExampleErrorKind, PixivError};
use crate::text::{chars_lt, dec_digits, join_path, lemma_chars_lt_trans, str_lt, u64_to_dec};
use vstd::prelude::*;
use vstd::string::StringExecFns;

pub mod filters;
pub mod images;
pub mod tags;

verus! {

/// serde_json's JSON value.  The crawler never reads inside one; it only
/// carries forward-compatible payload fields through.
#[verifier::external_type_specification]
#[verifier::external_body]
pub struct ExValue(serde_json::Value);

/// The envelope every endpoint answers with: an error flag, a message
/// that accompanies failures, and the payload.
#[derive(Debug)]
pub struct PixivResponse<T> {
    pub error: bool,
    pub message: String,
    pub body: T,
}

impl<T> PixivResponse<T> {
    /// Turns the envelope into a result: the payload when the remote did
    /// not flag an error, otherwise a remote-rejection error carrying the
    /// server message and `context`, which names the failing operation.
    pub fn throw(self, context: &str) -> (r: Result<T, PixivError>)
        ensures
            self.error ==> (r matches Err(e)
                && e.spec_kind() matches ExampleErrorKind::RequestError { message: m, context: c }
                && m@ == self.message@ && c@ == context@),
            !self.error ==> (r matches Ok(b) && b == self.body),
    {
        if self.error {
            Err(PixivError::request_error(self.message.as_str(), context))
        } else {
            Ok(self.body)
        }
    }
}

/// Page metadata of a search result.
#[derive(Debug)]
pub struct Meta {
    pub title: String,
    pub description: String,
    pub canonical: String,
    pub description_header: String,
}

/// Extra payload of a search result page.
#[derive(Debug)]
pub struct ExtraData {
    pub meta: Meta,
}

/// A single advertisement slot URL.
#[derive(Debug)]
pub struct Struct3 {
    pub url: String,
}

/// The advertisement slots of a search result page.
#[derive(Debug)]
pub struct ZoneConfig {
    pub logo: Struct3,
    pub header: Struct3,
    pub footer: Struct3,
    pub infeed: Struct3,
}

/// Popular works attached to a search result page, carried through
/// opaquely.
#[derive(Debug)]
pub struct Popular {
    pub recent: serde_json::Value,
    pub permanent: serde_json::Value,
}

/// A bookmark-count range of a search result page.
#[derive(Debug)]
pub struct Struct1 {
    pub min: Option<i64>,
    pub max: Option<serde_json::Value>,
}

/// Translated title and caption of a work, carried through opaquely.
#[derive(Debug)]
pub struct TitleCaptionTranslation {
    pub work_title: serde_json::Value,
    pub work_caption: serde_json::Value,
}

/// One item summary of a search result page.  The dimensions describe the
/// cover image only; each downloadable variant carries its own.  Fields
/// this crawler does not read are kept as opaque key-value pairs.
#[derive(Debug)]
pub struct IllustData {
    pub id: u64,
    pub tags: Vec<String>,
    pub title: String,
    pub description: String,
    pub width: u32,
    pub height: u32,
    pub unknown_fields: Vec<(String, serde_json::Value)>,
}

impl IllustData {
    /// The opaque extras hold what an ordered map handed over: keys in
    /// strictly ascending lexicographic order, hence unique.
    pub open spec fn extras_wf(self) -> bool {
        forall|i: int, j: int|
            0 <= i < j < self.unknown_fields@.len() ==> chars_lt(
                #[trigger] self.unknown_fields@[i].0@,
                #[trigger] self.unknown_fields@[j].0@,
            )
    }

    /// Checks that the extras are strictly ascending by key.
    pub fn extras_sorted(&self) -> (r: bool)
        ensures
            r == self.extras_wf(),
    {
        let n = self.unknown_fields.len();
        if n < 2 {
            return true;
        }
        let mut k: usize = 1;
        while k < n
            invariant
                1 <= k <= n,
                n == self.unknown_fields@.len(),
                forall|i: int, j: int|
                    0 <= i < j < k ==> chars_lt(
                        #[trigger] self.unknown_fields@[i].0@,
                        #[trigger] self.unknown_fields@[j].0@,
                    ),
            decreases n - k,
        {
            let earlier = &self.unknown_fields[k - 1].0;
            let later = &self.unknown_fields[k].0;
            if !str_lt(earlier.as_str(), later.as_str()) {
                return false;
            }
            proof {
                assert forall|i: int| 0 <= i < k implies chars_lt(
                    #[trigger] self.unknown_fields@[i].0@,
                    self.unknown_fields@[k as int].0@,
                ) by {
                    if i < k - 1 {
                        lemma_chars_lt_trans(
                            self.unknown_fields@[i].0@,
                            self.unknown_fields@[k - 1].0@,
                            self.unknown_fields@[k as int].0@,
                        );
                    }
                }
            }
            k = k + 1;
        }
        true
    }
}

/// The ordered items of a search result page, with the total item count
/// and the 1-based index of the last page.
#[derive(Debug)]
pub struct Illust {
    pub data: Vec<IllustData>,
    pub total: u64,
    pub last_page: u32,
    pub bookmark_ranges: Vec<Struct1>,
}

/// One page of a tag search.
#[derive(Debug)]
pub struct SearchTagPage {
    pub illusion: Illust,
    pub popular: Popular,
    pub related_tags: Vec<String>,
    pub tag_translation: serde_json::Value,
    pub zone_config: ZoneConfig,
    pub extra_data: ExtraData,
}

impl SearchTagPage {
    /// The number of result pages this page announces; always succeeds.
    pub fn count_pages(&self) -> (r: Result<u32, PixivError>)
        ensures
            r matches Ok(p) && p == self.illusion.last_page,
    {
        Ok(self.illusion.last_page)
    }
}

/// The item identifiers of a page, in page order.
pub fn collect_ids(page: &SearchTagPage) -> (ids: Vec<u64>)
    ensures
        ids@ == page.illusion.data@.map_values(|d: IllustData| d.id),
{
    let items = &page.illusion.data;
    let mut ids: Vec<u64> = Vec::new();
    let mut k: usize = 0;
    while k < items.len()
        invariant
            k <= items@.len(),
            ids@ == items@.subrange(0, k as int).map_values(|d: IllustData| d.id),
        decreases items@.len() - k,
    {
        ids.push(items[k].id);
        proof {
            assert(items@.subrange(0, k + 1).map_values(|d: IllustData| d.id) =~= items@.subrange(
                0,
                k as int,
            ).map_values(|d: IllustData| d.id).push(items@[k as int].id));
        }
        k = k + 1;
    }
    proof {
        assert(items@.subrange(0, items@.len() as int) =~= items@);
    }
    ids
}

/// Relies on rand's `IndexedRandom::choose`: `None` exactly when the
/// slice is empty, otherwise a reference to one uniformly drawn element.
#[verifier::external_body]
fn choose_agent(items: &[String]) -> (r: Option<&String>)
    ensures
        match r {
            Some(s) => exists|k: int| 0 <= k < items@.len() && *s == items@[k],
            None => items@.len() == 0,
        },
{
    rand::seq::IndexedRandom::choose(items, &mut rand::rng())
}

/// Relies on rand's `RngExt::random_range` on `lo..hi`: the sample is
/// drawn uniformly from the half-open range; the call panics only on an
/// empty range, which the precondition rules out.
#[verifier::external_body]
fn sample_range_u64(lo: u64, hi: u64) -> (r: u64)
    requires
        lo < hi,
    ensures
        lo <= r < hi,
{
    rand::RngExt::random_range(&mut rand::rng(), lo..hi)
}

/// Process-wide configuration of one crawl run: the download root, the
/// session cookie, the pool of user-agent strings, and the cooldown range
/// held in whole milliseconds.
#[derive(Debug)]
pub struct PixivClient {
    pub root: String,
    pub agents: Vec<String>,
    pub cookie: String,
    pub wait_min_ms: u64,
    pub wait_max_ms: u64,
}

impl PixivClient {
    /// A session is well formed when it has at least one user agent to
    /// pick from and a nonempty cooldown range.
    pub open spec fn wf(self) -> bool {
        self.agents@.len() > 0 && self.wait_min_ms < self.wait_max_ms
    }

    /// A fresh session for downloads under `root`: no cookie yet, one
    /// stock user agent, and a cooldown of one to two seconds.
    pub fn new(root: &str) -> (c: Self)
        ensures
            c.wf(),
            c.root@ == root@,
            c.cookie@ == Seq::<char>::empty(),
            c.agents@.len() == 1,
            c.agents@[0]@
                == "Mozilla/5.0 (Windows NT 10.0; Win64; x64) AppleWebKit/537.36 (KHTML, like Gecko) Chrome/96.0.4664.110 Safari/537.36"@,
            c.wait_min_ms == 1000,
            c.wait_max_ms == 2000,
    {
        let mut agents: Vec<String> = Vec::new();
        agents.push(
            "Mozilla/5.0 (Windows NT 10.0; Win64; x64) AppleWebKit/537.36 (KHTML, like Gecko) Chrome/96.0.4664.110 Safari/537.36".to_owned(),
        );
        PixivClient {
            root: root.to_owned(),
            agents,
            cookie: String::new(),
            wait_min_ms: 1000,
            wait_max_ms: 2000,
        }
    }

    /// Replaces the session cookie and changes nothing else.
    pub fn use_cookie(&mut self, cookie: &str)
        ensures
            final(self).cookie@ == cookie@,
            final(self).root == old(self).root,
            final(self).agents == old(self).agents,
            final(self).wait_min_ms == old(self).wait_min_ms,
            final(self).wait_max_ms == old(self).wait_max_ms,
    {
        self.cookie = cookie.to_owned();
    }

    /// One member of the session's user-agent pool, drawn at random.
    pub fn user_agent(&self) -> (ua: &String)
        requires
            self.agents@.len() > 0,
        ensures
            exists|k: int| 0 <= k < self.agents@.len() && *ua == self.agents@[k],
    {
        match choose_agent(self.agents.as_slice()) {
            Some(ua) => ua,
            None => unreached(),
        }
    }

    /// The pause before one item's downloads, in milliseconds, sampled
    /// uniformly from the session's configured range.
    pub fn cooldown(&self) -> (ms: u64)
        requires
            self.wait_min_ms < self.wait_max_ms,
        ensures
            self.wait_min_ms <= ms < self.wait_max_ms,
    {
        sample_range_u64(self.wait_min_ms, self.wait_max_ms)
    }
}

/// One gallery entry, identified by its id.
#[derive(Clone, Copy, Debug)]
pub struct PixivArtwork {
    pub id: u64,
}

impl PixivArtwork {
    /// The directory skip marks live in under a download root.
    pub fn skip_dir(folder: &str) -> (p: String)
        ensures
            p@ == folder@ + "/"@ + "skip"@,
    {
        join_path(folder, "skip")
    }

    /// Where this item's skip mark sits under a download root: an empty
    /// file named after the id inside the `skip` directory.
    pub fn skip_mark_path(&self, folder: &str) -> (p: String)
        ensures
            p@ == folder@ + "/"@ + "skip"@ + "/"@ + dec_digits(self.id as nat),
    {
        let dir = Self::skip_dir(folder);
        let name = u64_to_dec(self.id);
        join_path(dir.as_str(), name.as_str())
    }

    /// The endpoint listing this item's image variants.
    pub fn pages_endpoint(&self) -> (u: String)
        ensures
            u@ == "https://www.pixiv.net/ajax/illust/"@ + dec_digits(self.id as nat)
                + "/pages?lang=zh"@,
    {
        let mut u = "https://www.pixiv.net/ajax/illust/".to_owned();
        let id = u64_to_dec(self.id);
        u.append(id.as_str());
        u.append("/pages?lang=zh");
        u
    }

    /// The context string a remote rejection of this item's variant
    /// listing carries, naming the failing operation and the item.
    pub fn listing_context(&self) -> (c: String)
        ensures
            c@ == "PixivArtwork::get_image_urls("@ + dec_digits(self.id as nat) + ")"@,
    {
        let mut c = "PixivArtwork::get_image_urls(".to_owned();
        let id = u64_to_dec(self.id);
        c.append(id.as_str());
        c.append(")");
        c
    }
}

} // verus!
