use vstd::arithmetic::div_mod::{lemma_fundamental_div_mod, lemma_fundamental_div_mod_converse};
use vstd::prelude::*;

verus! {

/// The largest texture side the GPU backend is set up for.
pub const MAX_TEXTURE_SIZE: usize = 4096;

/// Bytes per texel in the staging buffer: red, green, blue, alpha.
pub const BYTES_PER_PIXEL: usize = 4;

/// A single-channel font image: `width * height` intensity bytes, row-major.
pub struct AtlasImage {
    pub width: usize,
    pub height: usize,
    pub samples: Vec<u8>,
}

impl AtlasImage {
    /// The image holds exactly one sample per texel.
    pub open spec fn wf(&self) -> bool {
        self.samples@.len() == self.width * self.height
    }
}

/// One texture update from the GUI.
pub enum TextureDelta {
    /// The font atlas changed.
    Font(AtlasImage),
    /// A color image changed: accepted and not applied.
    Color,
}

/// Why a font image could not be taken into the atlas.
#[derive(Clone, Copy, Debug, PartialEq, Eq, Structural)]
pub enum AtlasError {
    /// A side of the image is larger than the staging buffer's side.
    TooLarge { width: usize, height: usize },
}

/// Whether byte `i` of a staging buffer of side `max` lies in the top-left
/// `w` by `h` texels.
pub open spec fn in_region(i: int, max: int, w: int, h: int) -> bool {
    (i / 4) % max < w && (i / 4) / max < h
}

/// The image sample that byte `i` of a staging buffer of side `max` shows,
/// for an image `w` texels wide.
pub open spec fn sample_index(i: int, max: int, w: int) -> int {
    ((i / 4) / max) * w + (i / 4) % max
}

/// Sets the four channels of the texel that starts at byte `base` to `v`.
fn write_texel(pixels: &mut Vec<u8>, base: usize, v: u8)
    requires
        base + 4 <= old(pixels)@.len(),
    ensures
        final(pixels)@ == Seq::new(
            old(pixels)@.len(),
            |i: int| if base <= i < base + 4 { v } else { old(pixels)@[i] },
        ),
{
    // Reading the length tells the prover it fits a usize.
    let _len: usize = pixels.len();
    pixels.set(base, v);
    pixels.set(base + 1, v);
    pixels.set(base + 2, v);
    pixels.set(base + 3, v);
    assert(pixels@ =~= Seq::new(
        old(pixels)@.len(),
        |i: int| if base <= i < base + 4 { v } else { old(pixels)@[i] },
    ));
}

/// The staging buffer after a `w` by `h` image is copied into it: every
/// channel of a texel inside the image takes the texel's sample, and every
/// other byte keeps its value.
pub open spec fn copy_font_image(old: Seq<u8>, max: int, w: int, h: int, samples: Seq<u8>) -> Seq<u8> {
    Seq::new(
        old.len(),
        |i: int| if in_region(i, max, w, h) { samples[sample_index(i, max, w)] } else { old[i] },
    )
}

/// Whether one texture update can be applied to a staging buffer of side `max`.
pub open spec fn delta_fits(delta: TextureDelta, max: usize) -> bool {
    match delta {
        TextureDelta::Font(image) => image_fits(image, max),
        TextureDelta::Color => true,
    }
}

/// Every font image among the updates holds one sample per texel.
pub open spec fn deltas_wf(deltas: Seq<TextureDelta>) -> bool {
    forall|k: int| 0 <= k < deltas.len() ==> match #[trigger] deltas[k] {
        TextureDelta::Font(image) => image.wf(),
        TextureDelta::Color => true,
    }
}

/// Update `k` is the first that does not fit.
pub open spec fn first_misfit(deltas: Seq<TextureDelta>, max: usize, k: int) -> bool {
    &&& 0 <= k < deltas.len()
    &&& !delta_fits(deltas[k], max)
    &&& forall|j: int| 0 <= j < k ==> delta_fits(#[trigger] deltas[j], max)
}

/// The error that a misfitting update is refused with.
pub open spec fn misfit_error(delta: TextureDelta) -> AtlasError {
    match delta {
        TextureDelta::Font(image) => AtlasError::TooLarge { width: image.width, height: image.height },
        TextureDelta::Color => AtlasError::TooLarge { width: 0, height: 0 },
    }
}

/// Current width, height and staging bytes after applying `deltas` in order.
pub open spec fn atlas_after(
    width: usize,
    height: usize,
    bytes: Seq<u8>,
    max: usize,
    deltas: Seq<TextureDelta>,
) -> (usize, usize, Seq<u8>)
    decreases deltas.len(),
{
    if deltas.len() == 0 {
        (width, height, bytes)
    } else {
        let prev = atlas_after(width, height, bytes, max, deltas.drop_last());
        match deltas.last() {
            TextureDelta::Font(image) => (
                image.width,
                image.height,
                copy_font_image(prev.2, max as int, image.width as int, image.height as int, image.samples@),
            ),
            TextureDelta::Color => prev,
        }
    }
}

/// Part of a copy: the texels of the image that come before row `row`,
/// column `col` in row-major order have been written.
spec fn copied_upto(old: Seq<u8>, max: int, w: int, samples: Seq<u8>, row: int, col: int) -> Seq<u8> {
    Seq::new(
        old.len(),
        |i: int|
            if (i / 4) % max < w && ((i / 4) / max < row || ((i / 4) / max == row && (i / 4) % max < col)) {
                samples[sample_index(i, max, w)]
            } else {
                old[i]
            },
    )
}

/// Whether a font image fits a staging buffer of side `max`.
pub open spec fn image_fits(image: AtlasImage, max: usize) -> bool {
    image.width <= max && image.height <= max
}

proof fn lemma_texel_coords(i: int, max: int, row: int, col: int)
    requires
        0 <= i,
        0 < max,
        0 <= row,
        0 <= col < max,
    ensures
        ((i / 4) / max == row && (i / 4) % max == col) <==> (4 * (row * max + col) <= i < 4 * (row * max + col) + 4),
{
    let t = i / 4;
    if t / max == row && t % max == col {
        lemma_fundamental_div_mod(t, max);
        assert(t == row * max + col) by (nonlinear_arith)
            requires t == max * (t / max) + t % max, t / max == row, t % max == col;
    }
    if 4 * (row * max + col) <= i < 4 * (row * max + col) + 4 {
        assert(t == row * max + col);
        lemma_fundamental_div_mod_converse(t, max, row, col);
    }
}

proof fn lemma_texel_bounds(row: int, col: int, max: int, w: int, h: int)
    requires
        0 <= row < h,
        0 <= col < w,
        w <= max,
        h <= max,
    ensures
        0 <= row * max,
        0 <= row * w,
        row * max + col < max * max,
        4 * (row * max + col) + 4 <= 4 * (max * max),
        row * w + col < w * h,
{
    assert(0 <= row * max && 0 <= row * w) by (nonlinear_arith)
        requires 0 <= row, 0 <= w, 0 <= max;
    assert(row * max + col < max * max) by (nonlinear_arith)
        requires 0 <= row < h, 0 <= col < w, w <= max, h <= max;
    assert(row * w + col < w * h) by (nonlinear_arith)
        requires 0 <= row < h, 0 <= col < w;
}

/// The font atlas's staging buffer: `max * max` RGBA texels, row stride
/// `max`, of which the top-left `width` by `height` hold the current font
/// image.
pub struct FontAtlas {
    max_dimension: usize,
    width: usize,
    height: usize,
    pixels: Vec<u8>,
}

impl FontAtlas {
    /// The side of the staging buffer, in texels.
    pub closed spec fn max_side(&self) -> usize {
        self.max_dimension
    }

    /// The width of the current font image.
    pub closed spec fn atlas_width(&self) -> usize {
        self.width
    }

    /// The height of the current font image.
    pub closed spec fn atlas_height(&self) -> usize {
        self.height
    }

    /// The staging buffer's bytes.
    pub closed spec fn bytes(&self) -> Seq<u8> {
        self.pixels@
    }

    /// The buffer holds `max * max` texels and the current image fits it.
    pub closed spec fn wf(&self) -> bool {
        &&& 0 < self.max_dimension
        &&& self.pixels@.len() == 4 * (self.max_dimension * self.max_dimension)
        &&& self.width <= self.max_dimension
        &&& self.height <= self.max_dimension
    }

    /// An atlas of side `max_dimension` with a zeroed buffer and no image.
    pub fn new(max_dimension: usize) -> (r: Self)
        requires
            0 < max_dimension,
            4 * (max_dimension * max_dimension) <= usize::MAX,
        ensures
            r.wf(),
            r.max_side() == max_dimension,
            r.atlas_width() == 0,
            r.atlas_height() == 0,
            r.bytes() == Seq::new(4 * (max_dimension * max_dimension) as nat, |i: int| 0u8),
    {
        assert(max_dimension * max_dimension <= usize::MAX) by (nonlinear_arith)
            requires 0 < max_dimension, 4 * (max_dimension * max_dimension) <= usize::MAX;
        let n: usize = BYTES_PER_PIXEL * (max_dimension * max_dimension);
        let pixels: Vec<u8> = vec![0u8; n];
        assert(pixels@ =~= Seq::new(4 * (max_dimension * max_dimension) as nat, |i: int| 0u8));
        FontAtlas { max_dimension, width: 0, height: 0, pixels }
    }

    /// Copies a font image into the top-left of the staging buffer, each
    /// intensity sample into all four channels of its texel, and records the
    /// image's size as the current atlas size. Bytes outside the image keep
    /// their values. An image wider or taller than the buffer is refused and
    /// changes nothing.
    pub fn apply_font_image(&mut self, image: &AtlasImage) -> (r: Result<(), AtlasError>)
        requires
            old(self).wf(),
            image.wf(),
        ensures
            final(self).wf(),
            final(self).max_side() == old(self).max_side(),
            r is Ok <==> image_fits(*image, old(self).max_side()),
            r is Err ==> r == Err::<(), AtlasError>(AtlasError::TooLarge { width: image.width, height: image.height }),
            r is Err ==> final(self).atlas_width() == old(self).atlas_width()
                && final(self).atlas_height() == old(self).atlas_height()
                && final(self).bytes() == old(self).bytes(),
            r is Ok ==> final(self).atlas_width() == image.width
                && final(self).atlas_height() == image.height
                && final(self).bytes() == copy_font_image(
                    old(self).bytes(),
                    old(self).max_side() as int,
                    image.width as int,
                    image.height as int,
                    image.samples@,
                ),
    {
        let max = self.max_dimension;
        let w = image.width;
        let h = image.height;
        if w > max || h > max {
            return Err(AtlasError::TooLarge { width: w, height: h });
        }
        let ghost old_bytes = self.pixels@;
        let ghost samples = image.samples@;
        // Reading the lengths tells the prover they fit a usize.
        let _total: usize = self.pixels.len();
        let _count: usize = image.samples.len();
        let mut row: usize = 0;
        while row < h
            invariant
                self.max_dimension == max,
                self.width == old(self).width,
                self.height == old(self).height,
                0 < max,
                w <= max,
                h <= max,
                row <= h,
                samples == image.samples@,
                samples.len() == w * h,
                old_bytes == old(self).pixels@,
                old_bytes.len() == 4 * (max * max),
                old_bytes.len() <= usize::MAX,
                samples.len() <= usize::MAX,
                self.pixels@ == copied_upto(old_bytes, max as int, w as int, samples, row as int, 0),
            decreases h - row,
        {
            let mut col: usize = 0;
            while col < w
                invariant
                    self.max_dimension == max,
                    self.width == old(self).width,
                    self.height == old(self).height,
                    0 < max,
                    w <= max,
                    h <= max,
                    row < h,
                    col <= w,
                    samples == image.samples@,
                    samples.len() == w * h,
                    old_bytes.len() == 4 * (max * max),
                    old_bytes.len() <= usize::MAX,
                    samples.len() <= usize::MAX,
                    self.pixels@ == copied_upto(old_bytes, max as int, w as int, samples, row as int, col as int),
                decreases w - col,
            {
                proof {
                    lemma_texel_bounds(row as int, col as int, max as int, w as int, h as int);
                }
                let base: usize = BYTES_PER_PIXEL * (row * max + col);
                let v: u8 = image.samples[row * w + col];
                let ghost before = self.pixels@;
                write_texel(&mut self.pixels, base, v);
                proof {
                    let next = copied_upto(old_bytes, max as int, w as int, samples, row as int, col + 1);
                    assert forall|i: int| 0 <= i < self.pixels@.len() implies #[trigger] self.pixels@[i] == next[i] by {
                        lemma_texel_coords(i, max as int, row as int, col as int);
                    }
                    assert(self.pixels@ =~= next);
                }
                col = col + 1;
            }
            proof {
                assert(self.pixels@ =~= copied_upto(old_bytes, max as int, w as int, samples, row + 1, 0));
            }
            row = row + 1;
        }
        self.width = w;
        self.height = h;
        proof {
            assert(self.pixels@ =~= copy_font_image(old_bytes, max as int, w as int, h as int, samples));
        }
        Ok(())
    }

    /// Applies one frame's texture updates in order: font images are copied
    /// into the staging buffer, color images are accepted and ignored. If a
    /// font image does not fit, the first such is reported and nothing is
    /// applied.
    pub fn apply_texture_deltas(&mut self, deltas: &Vec<TextureDelta>) -> (r: Result<(), AtlasError>)
        requires
            old(self).wf(),
            deltas_wf(deltas@),
        ensures
            final(self).wf(),
            final(self).max_side() == old(self).max_side(),
            r is Ok <==> forall|k: int| 0 <= k < deltas@.len() ==> delta_fits(#[trigger] deltas@[k], old(self).max_side()),
            r is Err ==> exists|k: int| #[trigger] first_misfit(deltas@, old(self).max_side(), k)
                && r == Err::<(), AtlasError>(misfit_error(deltas@[k])),
            r is Err ==> final(self).atlas_width() == old(self).atlas_width()
                && final(self).atlas_height() == old(self).atlas_height()
                && final(self).bytes() == old(self).bytes(),
            r is Ok ==> (final(self).atlas_width(), final(self).atlas_height(), final(self).bytes())
                == atlas_after(
                    old(self).atlas_width(),
                    old(self).atlas_height(),
                    old(self).bytes(),
                    old(self).max_side(),
                    deltas@,
                ),
    {
        let max = self.max_dimension;
        let mut k: usize = 0;
        while k < deltas.len()
            invariant
                *self == *old(self),
                self.wf(),
                max == old(self).max_dimension,
                k <= deltas@.len(),
                forall|j: int| 0 <= j < k ==> delta_fits(#[trigger] deltas@[j], max),
            decreases deltas@.len() - k,
        {
            match &deltas[k] {
                TextureDelta::Font(image) => {
                    if image.width > max || image.height > max {
                        proof {
                            assert(first_misfit(deltas@, max, k as int));
                            assert(!delta_fits(deltas@[k as int], max));
                        }
                        return Err(AtlasError::TooLarge { width: image.width, height: image.height });
                    }
                },
                TextureDelta::Color => {},
            }
            k = k + 1;
        }
        let ghost w0 = self.width;
        let ghost h0 = self.height;
        let ghost b0 = self.pixels@;
        let mut i: usize = 0;
        while i < deltas.len()
            invariant
                self.wf(),
                self.max_dimension == max,
                i <= deltas@.len(),
                deltas_wf(deltas@),
                forall|j: int| 0 <= j < deltas@.len() ==> delta_fits(#[trigger] deltas@[j], max),
                (self.width, self.height, self.pixels@)
                    == atlas_after(w0, h0, b0, max, deltas@.subrange(0, i as int)),
            decreases deltas@.len() - i,
        {
            proof {
                assert(deltas@.subrange(0, i + 1).drop_last() =~= deltas@.subrange(0, i as int));
                assert(deltas@.subrange(0, i + 1).last() == deltas@[i as int]);
            }
            match &deltas[i] {
                TextureDelta::Font(image) => {
                    assert(delta_fits(deltas@[i as int], max));
                    let _ = self.apply_font_image(image);
                },
                TextureDelta::Color => {},
            }
            i = i + 1;
        }
        proof {
            assert(deltas@.subrange(0, deltas@.len() as int) =~= deltas@);
        }
        Ok(())
    }

    /// The side of the staging buffer, in texels.
    pub fn max_dimension(&self) -> (r: usize)
        ensures
            r == self.max_side(),
    {
        self.max_dimension
    }

    /// The width of the current font image.
    pub fn width(&self) -> (r: usize)
        ensures
            r == self.atlas_width(),
    {
        self.width
    }

    /// The height of the current font image.
    pub fn height(&self) -> (r: usize)
        ensures
            r == self.atlas_height(),
    {
        self.height
    }

    /// The staging buffer, to be uploaded whole.
    pub fn pixels(&self) -> (r: &Vec<u8>)
        ensures
            r@ == self.bytes(),
    {
        &self.pixels
    }
}

} // verus!
