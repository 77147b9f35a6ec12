//! The filter enumerations of a tag search and their query encodings.

use vstd::prelude::*;

verus! {

/// The aspect-ratio filter of a tag search.
#[derive(Copy, Clone, Debug, PartialEq, Eq, Structural, Default)]
pub enum PixivImageRatio {
    #[default]
    All,
    Landscape,
    Portrait,
    Square,
}

/// The audience filter of a tag search.
#[derive(Copy, Clone, Debug, PartialEq, Eq, Structural, Default)]
pub enum PixiSafeMode {
    #[default]
    All,
    Safe,
    R18,
    R18G,
}

/// How the search word is matched against an item's tags.
#[derive(Copy, Clone, Debug, PartialEq, Eq, Structural, Default)]
pub enum PixiMatchMode {
    #[default]
    ExactMatch,
    PartialMatch,
    TitleOrCaption,
}

/// The kind of work a tag search asks for.
#[derive(Copy, Clone, Debug, PartialEq, Eq, Structural, Default)]
pub enum PixiIllustrationType {
    #[default]
    All,
    IllustrationAndIllustration,
    Illustration,
    Animation,
    Manga,
}

impl PixiSafeMode {
    /// The value of the `mode` query parameter for this filter.
    pub open spec fn spec_encode_query(self) -> Seq<char> {
        match self {
            PixiSafeMode::All => "all"@,
            PixiSafeMode::Safe => "safe"@,
            PixiSafeMode::R18 => "r18"@,
            PixiSafeMode::R18G => "r18"@,
        }
    }

    /// Encodes this filter as the `mode` query parameter.
    pub fn encode_query(&self) -> (s: &'static str)
        ensures
            s@ == self.spec_encode_query(),
    {
        match self {
            PixiSafeMode::All => "all",
            PixiSafeMode::Safe => "safe",
            PixiSafeMode::R18 => "r18",
            PixiSafeMode::R18G => "r18",
        }
    }
}

impl PixiIllustrationType {
    /// The value of the `type` query parameter for this filter.
    pub open spec fn spec_encode_query(self) -> Seq<char> {
        match self {
            PixiIllustrationType::All => "all"@,
            PixiIllustrationType::IllustrationAndIllustration => "illust_and_ugoira"@,
            PixiIllustrationType::Illustration => "illust"@,
            PixiIllustrationType::Animation => "ugoira"@,
            PixiIllustrationType::Manga => "manga"@,
        }
    }

    /// Encodes this filter as the `type` query parameter.
    pub fn encode_query(&self) -> (s: &'static str)
        ensures
            s@ == self.spec_encode_query(),
    {
        match self {
            PixiIllustrationType::All => "all",
            PixiIllustrationType::IllustrationAndIllustration => "illust_and_ugoira",
            PixiIllustrationType::Illustration => "illust",
            PixiIllustrationType::Animation => "ugoira",
            PixiIllustrationType::Manga => "manga",
        }
    }

    /// The route segment of the search endpoint for this filter.
    pub open spec fn spec_encode_route(self) -> Seq<char> {
        match self {
            PixiIllustrationType::All => "artworks"@,
            PixiIllustrationType::IllustrationAndIllustration => "illustrations"@,
            PixiIllustrationType::Illustration => "illustrations"@,
            PixiIllustrationType::Animation => "illustrations"@,
            PixiIllustrationType::Manga => "manga"@,
        }
    }

    /// Encodes this filter as the route segment of the search endpoint.
    pub fn encode_route(&self) -> (s: &'static str)
        ensures
            s@ == self.spec_encode_route(),
    {
        match self {
            PixiIllustrationType::All => "artworks",
            PixiIllustrationType::IllustrationAndIllustration => "illustrations",
            PixiIllustrationType::Illustration => "illustrations",
            PixiIllustrationType::Animation => "illustrations",
            PixiIllustrationType::Manga => "manga",
        }
    }
}

impl PixiMatchMode {
    /// The value of the `s_mode` query parameter for this filter.
    pub open spec fn spec_encode_query(self) -> Seq<char> {
        match self {
            PixiMatchMode::ExactMatch => "s_tag_full"@,
            PixiMatchMode::PartialMatch => "s_tag"@,
            PixiMatchMode::TitleOrCaption => "s_tc"@,
        }
    }

    /// Encodes this filter as the `s_mode` query parameter.
    pub fn encode_query(&self) -> (s: &'static str)
        ensures
            s@ == self.spec_encode_query(),
    {
        match self {
            PixiMatchMode::ExactMatch => "s_tag_full",
            PixiMatchMode::PartialMatch => "s_tag",
            PixiMatchMode::TitleOrCaption => "s_tc",
        }
    }
}

} // verus!
