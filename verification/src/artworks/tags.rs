//! Tag-search queries: their builders and their encoding as query
//! parameters of the search endpoint.

use crate::artworks::filters::{PixiIllustrationType, PixiMatchMode, PixiSafeMode, PixivImageRatio};
use crate::text::{dec_digits, u64_to_dec};
use vstd::prelude::*;
use vstd::string::StringExecFns;

verus! {

/// One tag search: the word, the filters, and the 1-based page index.
#[derive(Clone, Debug)]
pub struct SearchIllustration {
    pub word: String,
    pub illust_type: PixiIllustrationType,
    pub mode: PixiMatchMode,
    pub order: String,
    pub safe: PixiSafeMode,
    pub csw: u32,
    pub ratio: PixivImageRatio,
    pub min_width: Option<u32>,
    pub max_width: Option<u32>,
    pub min_height: Option<u32>,
    pub max_height: Option<u32>,
    pub allow_ai: bool,
    pub page: u32,
}

impl SearchIllustration {
    /// The settings every builder starts from: date order, no audience
    /// filter, exact tag match, every work kind, no generated works, and
    /// page one.
    pub open spec fn spec_base_defaults(self) -> bool {
        &&& self.order@ == "data"@
        &&& self.safe == PixiSafeMode::All
        &&& self.csw == 1
        &&& self.illust_type == PixiIllustrationType::All
        &&& self.mode == PixiMatchMode::ExactMatch
        &&& !self.allow_ai
        &&& self.page == 1
    }

    /// A search for `tag` with the default filters: any ratio, no width
    /// bounds, and a height cap of 9999.
    pub fn new(tag: &str) -> (s: Self)
        ensures
            s.spec_base_defaults(),
            s.word@ == tag@,
            s.ratio == PixivImageRatio::All,
            s.min_width is None,
            s.max_width is None,
            s.min_height is None,
            s.max_height == Some(9999u32),
    {
        SearchIllustration {
            word: tag.to_owned(),
            order: "data".to_owned(),
            safe: PixiSafeMode::All,
            csw: 1,
            illust_type: PixiIllustrationType::All,
            mode: PixiMatchMode::ExactMatch,
            page: 1,
            ratio: PixivImageRatio::All,
            allow_ai: false,
            min_width: None,
            max_width: None,
            min_height: None,
            max_height: Some(9999),
        }
    }

    /// A search for `word` narrowed to landscape works of at least
    /// 768 by 512.
    pub fn landscape(word: &str) -> (s: Self)
        ensures
            s.spec_base_defaults(),
            s.word@ == word@,
            s.ratio == PixivImageRatio::Landscape,
            s.min_width == Some(768u32),
            s.max_width is None,
            s.min_height == Some(512u32),
            s.max_height == Some(9999u32),
    {
        let mut s = Self::new(word);
        s.ratio = PixivImageRatio::Landscape;
        s.min_width = Some(768);
        s.min_height = Some(512);
        s
    }

    /// A search for `word` narrowed to portrait works of at least
    /// 512 by 768.
    pub fn portrait(word: &str) -> (s: Self)
        ensures
            s.spec_base_defaults(),
            s.word@ == word@,
            s.ratio == PixivImageRatio::Portrait,
            s.min_width == Some(512u32),
            s.max_width is None,
            s.min_height == Some(768u32),
            s.max_height == Some(9999u32),
    {
        let mut s = Self::new(word);
        s.ratio = PixivImageRatio::Portrait;
        s.min_width = Some(512);
        s.min_height = Some(768);
        s
    }

    /// A search for `word` narrowed to works of at least 512 by 512,
    /// with the ratio filter left open.
    pub fn square(word: &str) -> (s: Self)
        ensures
            s.spec_base_defaults(),
            s.word@ == word@,
            s.ratio == PixivImageRatio::All,
            s.min_width == Some(512u32),
            s.max_width is None,
            s.min_height == Some(512u32),
            s.max_height == Some(9999u32),
    {
        let mut s = Self::new(word);
        s.min_width = Some(512);
        s.min_height = Some(512);
        s
    }

    /// The same search pointed at another page.
    pub fn with_page(&self, page: u32) -> (s: Self)
        ensures
            s.page == page,
            s.word == self.word,
            s.illust_type == self.illust_type,
            s.mode == self.mode,
            s.order == self.order,
            s.safe == self.safe,
            s.csw == self.csw,
            s.ratio == self.ratio,
            s.min_width == self.min_width,
            s.max_width == self.max_width,
            s.min_height == self.min_height,
            s.max_height == self.max_height,
            s.allow_ai == self.allow_ai,
    {
        SearchIllustration {
            word: self.word.clone(),
            illust_type: self.illust_type,
            mode: self.mode,
            order: self.order.clone(),
            safe: self.safe,
            csw: self.csw,
            ratio: self.ratio,
            min_width: self.min_width,
            max_width: self.max_width,
            min_height: self.min_height,
            max_height: self.max_height,
            allow_ai: self.allow_ai,
            page,
        }
    }

    /// The search endpoint for this query's word.
    pub fn endpoint(&self) -> (u: String)
        ensures
            u@ == "https://www.pixiv.net/ajax/search/illustrations/"@ + self.word@,
    {
        let mut u = "https://www.pixiv.net/ajax/search/illustrations/".to_owned();
        u.append(self.word.as_str());
        u
    }

    /// The query parameter the ratio filter contributes, if any.
    pub open spec fn spec_ratio_pairs(ratio: PixivImageRatio) -> Seq<(Seq<char>, Seq<char>)> {
        match ratio {
            PixivImageRatio::All => Seq::empty(),
            PixivImageRatio::Landscape => seq![("ratio"@, "0.5"@)],
            PixivImageRatio::Portrait => seq![("ratio"@, "-0.5"@)],
            PixivImageRatio::Square => seq![("ratio"@, "-0.5"@)],
        }
    }

    /// The query parameter a dimension bound contributes, if set: the
    /// bound rendered in decimal.
    pub open spec fn spec_dim_pairs(key: Seq<char>, v: Option<u32>) -> Seq<(Seq<char>, Seq<char>)> {
        match v {
            Some(x) => seq![(key, dec_digits(x as nat))],
            None => Seq::empty(),
        }
    }

    /// The query parameters of this search, in the order the search
    /// endpoint is given them.  The work kind is always sent as `all`,
    /// `ai_type=1` is sent exactly when generated works are excluded, and
    /// the 1-based page index is sent as `p`, so that a crawl really
    /// reaches the page it asks for.
    pub open spec fn spec_query_pairs(self) -> Seq<(Seq<char>, Seq<char>)> {
        seq![
            ("word"@, self.word@),
            ("type"@, "all"@),
            ("mode"@, self.safe.spec_encode_query()),
            ("s_mode"@, self.mode.spec_encode_query()),
        ] + Self::spec_ratio_pairs(self.ratio) + Self::spec_dim_pairs("wlt"@, self.min_width)
            + Self::spec_dim_pairs("wgt"@, self.max_width) + Self::spec_dim_pairs(
            "hlt"@,
            self.min_height,
        ) + Self::spec_dim_pairs("hgt"@, self.max_height) + (if self.allow_ai {
            Seq::empty()
        } else {
            seq![("ai_type"@, "1"@)]
        }) + seq![("p"@, dec_digits(self.page as nat))]
    }

    /// Encodes this search as query parameters, in the order
    /// [`SearchIllustration::spec_query_pairs`] lists them.
    #[verifier::rlimit(100)]
    pub fn query_pairs(&self) -> (q: Vec<(String, String)>)
        ensures
            q@.map_values(|p: (String, String)| (p.0@, p.1@)) == self.spec_query_pairs(),
    {
        let mut q: Vec<(String, String)> = Vec::new();
        q.push(("word".to_owned(), self.word.clone()));
        q.push(("type".to_owned(), "all".to_owned()));
        q.push(("mode".to_owned(), self.safe.encode_query().to_owned()));
        q.push(("s_mode".to_owned(), self.mode.encode_query().to_owned()));
        match self.ratio {
            PixivImageRatio::All => {},
            PixivImageRatio::Landscape => {
                q.push(("ratio".to_owned(), "0.5".to_owned()));
            },
            PixivImageRatio::Portrait => {
                q.push(("ratio".to_owned(), "-0.5".to_owned()));
            },
            PixivImageRatio::Square => {
                q.push(("ratio".to_owned(), "-0.5".to_owned()));
            },
        }
        if let Some(w) = self.min_width {
            q.push(("wlt".to_owned(), u64_to_dec(w as u64)));
        }
        if let Some(w) = self.max_width {
            q.push(("wgt".to_owned(), u64_to_dec(w as u64)));
        }
        if let Some(h) = self.min_height {
            q.push(("hlt".to_owned(), u64_to_dec(h as u64)));
        }
        if let Some(h) = self.max_height {
            q.push(("hgt".to_owned(), u64_to_dec(h as u64)));
        }
        if !self.allow_ai {
            q.push(("ai_type".to_owned(), "1".to_owned()));
        }
        q.push(("p".to_owned(), u64_to_dec(self.page as u64)));
        proof {
            assert(q@.map_values(|p: (String, String)| (p.0@, p.1@)) =~= self.spec_query_pairs());
        }
        q
    }
}

} // verus!
