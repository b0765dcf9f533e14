//! The polled view of the asset store: which images have finished decoding,
//! and the pixel data of a decoded image.
//!
//! Decoding is asynchronous in the host; this engine only ever asks
//! "is this image decoded yet" and proceeds either way.

use vstd::prelude::*;
use crate::color::Rgba;

verus! {

/// What the asset store reports about a decoded image: its native size.
#[derive(Clone, Copy, Debug, PartialEq, Eq, Structural)]
pub struct DecodedImageMeta {
    pub width: u32,
    pub height: u32,
}

/// The most recent entry wins, so re-registering an id models a hot swap.
pub open spec fn spec_lookup(entries: Seq<(u64, DecodedImageMeta)>, id: u64) -> Option<
    DecodedImageMeta,
>
    decreases entries.len(),
{
    if entries.len() == 0 {
        None
    } else if entries.last().0 == id {
        Some(entries.last().1)
    } else {
        spec_lookup(entries.drop_last(), id)
    }
}

/// The set of images the asset store has finished decoding, queryable by
/// handle id. Registering an id again shadows the earlier entry.
pub struct ImageStore {
    entries: Vec<(u64, DecodedImageMeta)>,
}

impl ImageStore {
    pub closed spec fn view(self) -> Seq<(u64, DecodedImageMeta)> {
        self.entries@
    }

    /// A store in which nothing has finished decoding yet.
    pub fn new() -> (s: ImageStore)
        ensures
            s@ =~= Seq::<(u64, DecodedImageMeta)>::empty(),
    {
        ImageStore { entries: Vec::new() }
    }

    /// Record that the image behind `id` has finished decoding at the given
    /// native size.
    pub fn insert(&mut self, id: u64, meta: DecodedImageMeta)
        ensures
            final(self)@ == old(self)@.push((id, meta)),
            spec_lookup(final(self)@, id) == Some(meta),
    {
        self.entries.push((id, meta));
    }

    /// Non-blocking query: the decoded size of the image behind `id`, or
    /// `None` while it is still loading.
    pub fn get(&self, id: u64) -> (r: Option<DecodedImageMeta>)
        ensures
            r == spec_lookup(self@, id),
    {
        let mut i: usize = self.entries.len();
        proof {
            assert(self@.subrange(0, i as int) =~= self@);
        }
        while i > 0
            invariant
                i <= self.entries.len(),
                spec_lookup(self@, id) == spec_lookup(self@.subrange(0, i as int), id),
            decreases i,
        {
            i = i - 1;
            let entry = self.entries[i];
            proof {
                assert(self@.subrange(0, i + 1).drop_last() =~= self@.subrange(0, i as int));
                assert(self@.subrange(0, i + 1).last() == self@[i as int]);
            }
            if entry.0 == id {
                return Some(entry.1);
            }
        }
        proof {
            assert(self@.subrange(0, 0) =~= Seq::<(u64, DecodedImageMeta)>::empty());
        }
        None
    }
}

/// The decoded pixels of an image: a row-major grid of colors.
pub struct ImageData {
    width: u32,
    height: u32,
    pixels: Vec<Rgba>,
}

impl ImageData {
    /// The pixels in row-major order.
    pub closed spec fn view(self) -> Seq<Rgba> {
        self.pixels@
    }

    pub closed spec fn spec_width(self) -> u32 {
        self.width
    }

    pub closed spec fn spec_height(self) -> u32 {
        self.height
    }

    /// Row-major layout: exactly one pixel per cell of the grid.
    pub open spec fn wf(self) -> bool {
        self@.len() == self.spec_width() * self.spec_height()
    }

    pub open spec fn pixel_at(self, x: int, y: int) -> Rgba {
        self@[y * self.spec_width() + x]
    }

    /// Build an image from row-major pixels; `None` when the pixel count
    /// does not match the dimensions.
    pub fn from_pixels(width: u32, height: u32, pixels: Vec<Rgba>) -> (r: Option<ImageData>)
        ensures
            match r {
                Some(img) => {
                    &&& img.wf()
                    &&& img.spec_width() == width
                    &&& img.spec_height() == height
                    &&& img@ == pixels@
                    &&& pixels@.len() == width * height
                },
                None => pixels@.len() != width * height,
            },
    {
        proof {
            assert((width as int) * (height as int) <= 0xffff_ffff * 0xffff_ffff)
                by (nonlinear_arith)
                requires
                    width <= 0xffff_ffffu32,
                    height <= 0xffff_ffffu32,
            ;
        }
        if pixels.len() as u64 == (width as u64) * (height as u64) {
            Some(ImageData { width, height, pixels })
        } else {
            None
        }
    }

    pub fn width(&self) -> (w: u32)
        ensures
            w == self.spec_width(),
    {
        self.width
    }

    pub fn height(&self) -> (h: u32)
        ensures
            h == self.spec_height(),
    {
        self.height
    }

    /// The native size of the image, as the asset store would report it.
    pub fn meta(&self) -> (m: DecodedImageMeta)
        ensures
            m.width == self.spec_width(),
            m.height == self.spec_height(),
    {
        DecodedImageMeta { width: self.width, height: self.height }
    }

    pub fn pixel(&self, x: u32, y: u32) -> (c: Rgba)
        requires
            self.wf(),
            x < self.spec_width(),
            y < self.spec_height(),
        ensures
            c == self.pixel_at(x as int, y as int),
    {
        proof {
            lemma_row_major_index_in_range(
                x as int,
                y as int,
                self.width as int,
                self.height as int,
            );
        }
        let n: usize = self.pixels.len();
        proof {
            assert(y * self.spec_width() + x < n);
        }
        let idx: usize = (y as usize) * (self.width as usize) + (x as usize);
        self.pixels[idx]
    }
}

/// A cell of a row-major grid lies inside the grid's pixel array.
pub proof fn lemma_row_major_index_in_range(x: int, y: int, width: int, height: int)
    by (nonlinear_arith)
    requires
        0 <= x < width,
        0 <= y < height,
    ensures
        0 <= y * width + x < width * height,
{
}

} // verus!
