//! Image variants, their orientation buckets, and the paths their bytes
//! are written to.

use crate::text::{file_name, join_path, tail_segment};
use vstd::prelude::*;

verus! {

/// One downloadable image belonging to an item, with its own dimensions.
/// Items with several pages carry several of these.
#[derive(Clone, Debug)]
pub struct PixivImage {
    pub urls: PixivImageUrls,
    pub width: u32,
    pub height: u32,
}

/// The resolution tiers the listing endpoint offers for one image; only
/// the `original` tier is ever downloaded.
#[derive(Clone, Debug)]
pub struct PixivImageUrls {
    pub mini: String,
    pub small: String,
    pub regular: String,
    pub original: String,
}

/// The destination subdirectory of an image, derived from the image's own
/// dimensions and never stored.
#[derive(Copy, Clone, Debug, PartialEq, Eq, Structural)]
pub enum Orientation {
    Horizontal,
    Vertical,
    Square,
}

impl PixivImage {
    /// The orientation bucket of this image: wider than tall is
    /// horizontal, taller than wide is vertical, otherwise square.
    pub open spec fn spec_orientation(self) -> Orientation {
        if self.width > self.height {
            Orientation::Horizontal
        } else if self.width < self.height {
            Orientation::Vertical
        } else {
            Orientation::Square
        }
    }

    /// Derives the orientation bucket from this image's dimensions.
    pub fn orientation(&self) -> (o: Orientation)
        ensures
            o == self.spec_orientation(),
    {
        if self.width > self.height {
            Orientation::Horizontal
        } else if self.width < self.height {
            Orientation::Vertical
        } else {
            Orientation::Square
        }
    }

    /// The subdirectory name of this image's orientation bucket.
    pub open spec fn spec_orientation_dir(self) -> Seq<char> {
        match self.spec_orientation() {
            Orientation::Horizontal => "horizontal"@,
            Orientation::Vertical => "vertical"@,
            Orientation::Square => "square"@,
        }
    }

    /// The subdirectory this image's bytes land in under a download root.
    pub fn orientation_dir(&self) -> (d: &'static str)
        ensures
            d@ == self.spec_orientation_dir(),
    {
        if self.width > self.height {
            "horizontal"
        } else if self.width < self.height {
            "vertical"
        } else {
            "square"
        }
    }

    /// The full path this image's bytes are written to: the orientation
    /// bucket under `folder`, then the trailing segment of the original
    /// URL as the file name.
    pub fn destination(&self, folder: &str) -> (p: String)
        ensures
            p@ == folder@ + "/"@ + self.spec_orientation_dir() + "/"@ + tail_segment(
                self.urls.original@,
            ),
    {
        let dir = join_path(folder, self.orientation_dir());
        let name = file_name(self.urls.original.as_str());
        join_path(dir.as_str(), name.as_str())
    }
}

} // verus!
