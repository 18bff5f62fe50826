use vstd::prelude::*;

use crate::error::{ViuError, ViuResult};
use crate::geometry::{best_fit, find_best_fit};

verus! {

/// A raster of 8-bit RGBA pixels, stored row by row, four bytes to a pixel.
pub struct Image {
    pub width: u32,
    pub height: u32,
    pub pixels: Vec<u8>,
}

/// The index in an RGBA buffer of channel `k` of the pixel at column `x`, row `y`.
pub open spec fn channel_index(width: int, x: int, y: int, k: int) -> int {
    4 * (y * width + x) + k
}

impl Image {
    /// The buffer holds exactly four bytes for each pixel.
    pub open spec fn wf(&self) -> bool {
        self.pixels@.len() == 4 * (self.width as int) * (self.height as int)
    }

    /// Channel `k` (red, green, blue, alpha) of the pixel at column `x`, row `y`.
    pub open spec fn channel(&self, x: int, y: int, k: int) -> u8 {
        self.pixels@[channel_index(self.width as int, x, y, k)]
    }
}

impl Image {
    /// A fully transparent black image.
    pub fn new(width: u32, height: u32) -> (r: Image)
        requires
            4 * (width as int) * (height as int) <= usize::MAX,
        ensures
            r.wf(),
            r.width == width,
            r.height == height,
            forall|i: int| 0 <= i < r.pixels@.len() ==> r.pixels@[i] == 0,
    {
        assert((width as int) * (height as int) <= 4 * (width as int) * (height as int) && (
        width as int) * (height as int) * 4 == 4 * (width as int) * (height as int))
            by (nonlinear_arith);
        let n = (width as usize) * (height as usize) * 4;
        Image { width, height, pixels: vec![0u8; n] }
    }

    /// An image over an RGBA buffer, if the buffer holds four bytes for each pixel.
    pub fn from_rgba(width: u32, height: u32, pixels: Vec<u8>) -> (r: Option<Image>)
        ensures
            r is Some <==> pixels@.len() == 4 * (width as int) * (height as int),
            r matches Some(img) ==> img.wf() && img.width == width && img.height == height
                && img.pixels@ == pixels@,
    {
        let w = width as u128;
        let h = height as u128;
        assert(4 * w * h < 0x1_0000_0000_0000_0000_0000_0000) by (nonlinear_arith)
            requires
                w < 0x1_0000_0000,
                h < 0x1_0000_0000,
        ;
        if pixels.len() as u128 == 4 * w * h {
            Some(Image { width, height, pixels })
        } else {
            None
        }
    }

    /// Where the pixel at column `x`, row `y` starts in the buffer.
    pub fn pixel_base(&self, x: u32, y: u32) -> (b: usize)
        requires
            self.wf(),
            x < self.width,
            y < self.height,
        ensures
            b as int == channel_index(self.width as int, x as int, y as int, 0),
            b + 3 < self.pixels@.len(),
    {
        // the length of a buffer fits in usize, and so does every index into it
        let len = self.pixels.len();
        proof {
            lemma_channel_in_buffer(self.width as int, self.height as int, x as int, y as int);
        }
        let row = y as usize * self.width as usize;
        4 * (row + x as usize)
    }

    /// The red, green, blue and alpha channels of the pixel at column `x`, row `y`.
    pub fn get_pixel(&self, x: u32, y: u32) -> (p: [u8; 4])
        requires
            self.wf(),
            x < self.width,
            y < self.height,
        ensures
            forall|k: int| 0 <= k < 4 ==> p@[k] == self.channel(x as int, y as int, k),
    {
        let base = self.pixel_base(x, y);
        [self.pixels[base], self.pixels[base + 1], self.pixels[base + 2], self.pixels[base + 3]]
    }

    /// Sets the pixel at column `x`, row `y` to the channels `p`.
    pub fn put_pixel(&mut self, x: u32, y: u32, p: [u8; 4])
        requires
            old(self).wf(),
            x < old(self).width,
            y < old(self).height,
        ensures
            final(self).wf(),
            final(self).width == old(self).width,
            final(self).height == old(self).height,
            forall|k: int|
                0 <= k < 4 ==> final(self).channel(x as int, y as int, k) == p@[k],
            forall|i: int|
                0 <= i < final(self).pixels@.len() && !(channel_index(
                    old(self).width as int,
                    x as int,
                    y as int,
                    0,
                ) <= i < channel_index(old(self).width as int, x as int, y as int, 4))
                    ==> final(self).pixels@[i] == old(self).pixels@[i],
    {
        let base = self.pixel_base(x, y);
        self.pixels.set(base, p[0]);
        self.pixels.set(base + 1, p[1]);
        self.pixels.set(base + 2, p[2]);
        self.pixels.set(base + 3, p[3]);
    }
}

pub proof fn lemma_channel_in_buffer(w: int, h: int, x: int, y: int)
    requires
        0 <= x < w,
        0 <= y < h,
    ensures
        0 <= y * w,
        y * w + x < w * h,
        w * h <= 4 * w * h,
        0 <= channel_index(w, x, y, 0),
        channel_index(w, x, y, 3) < 4 * w * h,
{
    assert(0 <= y * w && y * w + x < w * h && w * h <= 4 * w * h && 4 * (y * w + x) + 3 < 4 * w
        * h) by (nonlinear_arith)
        requires
            0 <= x < w,
            0 <= y < h,
    ;
}

/// The pixels that the image codec's triangle filter gives when it resamples a `width` ×
/// `height` RGBA raster to `new_width` × `new_height`.
pub uninterp spec fn resampled(
    pixels: Seq<u8>,
    width: u32,
    height: u32,
    new_width: u32,
    new_height: u32,
) -> Seq<u8>;

/// Whether resampling a raster `width` pixels wide to `new_width` × `new_height` stays within
/// the buffers that can be allocated: the codec works through a buffer of `width` ×
/// `new_height` pixels of four 32-bit floats.
pub open spec fn resample_fits(width: int, new_width: int, new_height: int) -> bool {
    &&& 16 * width * new_height <= isize::MAX
    &&& 4 * new_width * new_height <= isize::MAX
}

/// Relies on `image::imageops::resize` with the triangle filter: it returns a raster of the
/// asked size whose pixels depend on the source raster and the sizes alone.
#[verifier::external_body]
pub(crate) fn resample(img: &Image, new_width: u32, new_height: u32) -> (r: Image)
    requires
        img.wf(),
        resample_fits(img.width as int, new_width as int, new_height as int),
    ensures
        r.wf(),
        r.width == new_width,
        r.height == new_height,
        r.pixels@ == resampled(img.pixels@, img.width, img.height, new_width, new_height),
{
    let src = image::RgbaImage::from_raw(img.width, img.height, img.pixels.clone()).unwrap();
    let out = image::imageops::resize(
        &src,
        new_width,
        new_height,
        image::imageops::FilterType::Triangle,
    );
    Image { width: new_width, height: new_height, pixels: out.into_raw() }
}

/// Whether an image `width` pixels wide can be resized to a box of `cells_w` × `cells_h`
/// cells, that is to `cells_w` × `2 * cells_h` pixels.
pub open spec fn resize_fits(width: int, cells_w: int, cells_h: int) -> bool {
    2 * cells_h <= u32::MAX && resample_fits(width, cells_w, 2 * cells_h)
}

/// Resizes `img` to the cells that `find_best_fit` picks, two pixel rows to a cell row.
///
/// Fails with an invalid configuration when that size is too large to allocate.
pub fn resize(
    img: &Image,
    width: Option<u32>,
    height: Option<u32>,
    preserve_aspect_ratio: bool,
    term_size: (u16, u16),
) -> (r: ViuResult<Image>)
    requires
        img.wf(),
    ensures
        ({
            let cells = best_fit(
                img.width as int,
                img.height as int,
                width,
                height,
                preserve_aspect_ratio,
                term_size.0 as int,
                term_size.1 as int,
            );
            &&& r is Ok <==> resize_fits(img.width as int, cells.0, cells.1)
            &&& r matches Ok(out) ==> {
                &&& out.wf()
                &&& out.width == cells.0
                &&& out.height == 2 * cells.1
                &&& out.pixels@ == resampled(
                    img.pixels@,
                    img.width,
                    img.height,
                    cells.0 as u32,
                    (2 * cells.1) as u32,
                )
            }
            &&& r matches Err(e) ==> e is InvalidConfiguration
        }),
{
    let (w, h) = find_best_fit(img, width, height, preserve_aspect_ratio, term_size);
    let iw = img.width as u128;
    let nw = w as u128;
    let nh = 2 * (h as u128);
    assert(16 * iw * nh < 0x1_0000_0000_0000_0000_0000_0000 && 4 * nw * nh
        < 0x1_0000_0000_0000_0000_0000_0000) by (nonlinear_arith)
        requires
            iw < 0x1_0000_0000,
            nw < 0x1_0000_0000,
            nh < 0x2_0000_0000,
    ;
    if nh > u32::MAX as u128 || 16 * iw * nh > isize::MAX as u128 || 4 * nw * nh
        > isize::MAX as u128 {
        return Err(ViuError::InvalidConfiguration("the image is too large to resize".to_owned()));
    }
    Ok(resample(img, w, nh as u32))
}

} // verus!
