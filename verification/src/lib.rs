//! A verified core for a tag-search image crawler.
//!
//! The library holds the data model of a gallery site's search API, the
//! pure computations behind every download decision (orientation buckets,
//! destination paths, skip-mark paths, query encodings), and the two state
//! machines that drive a crawl: one per item, one per result page.  All
//! network and filesystem work is performed outside the library by a driver
//! that executes the actions these machines emit and feeds the outcomes back
//! as events.

pub mod artworks;
pub mod downloader;
mod errors;
pub mod text;

pub use crate::artworks::images::{PixivImage, PixivImageUrls};
pub use crate::artworks::tags::SearchIllustration;
pub use crate::errors::{ExampleErrorKind, PixivError};
