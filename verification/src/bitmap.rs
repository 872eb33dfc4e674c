use vstd::prelude::*;

use crate::model::{
    aspect_within_rounding, blank_img, clip_at, clip_len, clip_off, composited_pointwise, crop_px,
    fill_img, fill_resized, fit_img, fit_resized, overlay_img, overlaid, Img,
};
use image::GenericImageView;

verus! {

#[verifier::external_type_specification]
#[verifier::external_body]
pub struct ExDynamicImage(image::DynamicImage);

/// Largest width or height the library accepts for a bitmap. The cap
/// keeps every size computation (sample-buffer lengths, placement sums,
/// and the cover-scaled intermediate that `resize_to_fill` crops, which
/// the `image` crate clamps at `u32::MAX` for more extreme sizes) well
/// inside its integer range.
pub const MAX_DIM: u32 = 65535;

/// The row-major RGBA8 sample bytes of a decoded image, four per pixel:
/// the rendering that `DynamicImage::into_rgba8` gives of it.
pub uninterp spec fn img_pixels(img: image::DynamicImage) -> Seq<u8>;

/// The width and height of a decoded image, in pixels.
pub uninterp spec fn img_dims(img: image::DynamicImage) -> (nat, nat);

/// The model of a decoded image: its dimensions and its RGBA8 samples.
pub open spec fn img_model(img: image::DynamicImage) -> Img {
    Img { w: img_dims(img).0, h: img_dims(img).1, px: img_pixels(img) }
}

/// Relies on `GenericImageView::dimensions` for `DynamicImage`: the
/// width and height of the image.
#[verifier::external_body]
fn raw_dims(img: &image::DynamicImage) -> (r: (u32, u32))
    ensures
        r.0 as nat == img_dims(*img).0,
        r.1 as nat == img_dims(*img).1,
{
    img.dimensions()
}

/// Relies on `DynamicImage::into_rgba8`: re-encodes the image as RGBA8,
/// keeping its dimensions and the color of every pixel.
#[verifier::external_body]
fn raw_to_rgba(img: image::DynamicImage) -> (r: image::DynamicImage)
    ensures
        img_model(r) == img_model(img),
{
    image::DynamicImage::ImageRgba8(img.into_rgba8())
}

/// Relies on `<DynamicImage as Clone>::clone`: an identical copy.
#[verifier::external_body]
fn raw_clone(img: &image::DynamicImage) -> (r: image::DynamicImage)
    ensures
        img_model(r) == img_model(*img),
{
    img.clone()
}

/// Relies on `ImageBuffer::from_raw`: builds an RGBA8 image over the
/// given sample bytes, row major, four bytes per pixel. With the exact
/// buffer length it returns `Some`.
#[verifier::external_body]
fn raw_from_pixels(w: u32, h: u32, bytes: Vec<u8>) -> (r: image::DynamicImage)
    requires
        bytes@.len() == 4 * w * h,
    ensures
        img_dims(r).0 == w as nat,
        img_dims(r).1 == h as nat,
        img_pixels(r) == bytes@,
{
    image::DynamicImage::ImageRgba8(image::ImageBuffer::from_raw(w, h, bytes).unwrap())
}

/// Relies on `DynamicImage::to_rgba8` and `ImageBuffer::into_raw`: hands
/// out the RGBA8 sample bytes of the image, row major.
#[verifier::external_body]
fn raw_pixels(img: &image::DynamicImage) -> (r: Vec<u8>)
    ensures
        r@ == img_pixels(*img),
{
    img.to_rgba8().into_raw()
}

/// Relies on `DynamicImage::resize` with `FilterType::Lanczos3`: an
/// aspect-preserving resize into the target box. The source of
/// `resize_dimensions` shows that the result fits within the box and
/// keeps at least one pixel per axis, and that both axes are the source
/// dimensions scaled by one common ratio and rounded (clamped up to one
/// where the rounding gives zero), so the integer cross products differ
/// by at most the larger source dimension; the samples depend on the
/// source samples, the source dimensions and the box alone.
#[verifier::external_body]
fn raw_resize_fit(img: &image::DynamicImage, tw: u32, th: u32) -> (r: image::DynamicImage)
    requires
        1 <= img_dims(*img).0,
        1 <= img_dims(*img).1,
        1 <= tw,
        1 <= th,
    ensures
        img_dims(r).0 == fit_resized(img_pixels(*img), img_dims(*img).0, img_dims(*img).1, tw as nat, th as nat).0,
        img_dims(r).1 == fit_resized(img_pixels(*img), img_dims(*img).0, img_dims(*img).1, tw as nat, th as nat).1,
        img_pixels(r) == fit_resized(img_pixels(*img), img_dims(*img).0, img_dims(*img).1, tw as nat, th as nat).2,
        img_dims(r).0 <= tw as nat,
        img_dims(r).1 <= th as nat,
        1 <= img_dims(r).0,
        1 <= img_dims(r).1,
        aspect_within_rounding(
            img_dims(r).0 as int,
            img_dims(r).1 as int,
            img_dims(*img).0 as int,
            img_dims(*img).1 as int,
        ),
{
    img.resize(tw, th, image::imageops::FilterType::Lanczos3)
}

/// Relies on `DynamicImage::resize_to_fill` with `FilterType::Lanczos3`:
/// scales to cover the box, then center-crops to exactly the target
/// dimensions. With every admitted dimension at most `MAX_DIM`, the
/// cover-scaled axes of `resize_dimensions` stay below its `u32::MAX`
/// clamp (their product of ratios is under `MAX_DIM * MAX_DIM`), the
/// scaled intermediate covers the box, and the crop is exact; so the
/// result is exactly `tw` by `th` and depends on the source samples,
/// the source dimensions and the box alone.
#[verifier::external_body]
fn raw_resize_fill(img: &image::DynamicImage, tw: u32, th: u32) -> (r: image::DynamicImage)
    requires
        1 <= img_dims(*img).0,
        1 <= img_dims(*img).1,
        img_dims(*img).0 <= MAX_DIM,
        img_dims(*img).1 <= MAX_DIM,
        1 <= tw,
        1 <= th,
        tw <= MAX_DIM,
        th <= MAX_DIM,
    ensures
        img_dims(r).0 == tw as nat,
        img_dims(r).1 == th as nat,
        img_pixels(r) == fill_resized(img_pixels(*img), img_dims(*img).0, img_dims(*img).1, tw as nat, th as nat),
{
    img.resize_to_fill(tw, th, image::imageops::FilterType::Lanczos3)
}

/// Relies on `image::imageops::overlay`: alpha-composites the foreground
/// onto the base at a signed offset. Its source clamps every coordinate
/// to the base's bounds and writes only inside the intersection, so: no
/// offset makes the call panic; the base keeps its dimensions and its
/// sample count; base pixels outside the foreground's rectangle keep
/// their bytes, a fully opaque foreground pixel replaces the base's and
/// a fully transparent one leaves it; an intersection that is empty
/// leaves the base untouched; and the result equals compositing only
/// the visible sub-region of the foreground at the clamped offset.
#[verifier::external_body]
fn raw_overlay(base: &mut image::DynamicImage, fg: &image::DynamicImage, x: i64, y: i64)
    ensures
        img_dims(*final(base)).0 == img_dims(*old(base)).0,
        img_dims(*final(base)).1 == img_dims(*old(base)).1,
        img_pixels(*final(base)).len() == img_pixels(*old(base)).len(),
        img_pixels(*final(base)) == overlaid(
            img_pixels(*old(base)),
            img_dims(*old(base)).0,
            img_dims(*old(base)).1,
            img_pixels(*fg),
            img_dims(*fg).0,
            img_dims(*fg).1,
            x as int,
            y as int,
        ),
        composited_pointwise(
            img_pixels(*old(base)),
            img_pixels(*final(base)),
            img_dims(*old(base)).0,
            img_dims(*old(base)).1,
            img_pixels(*fg),
            img_dims(*fg).0,
            img_dims(*fg).1,
            x as int,
            y as int,
        ),
        (x as int + img_dims(*fg).0 <= 0 || x as int >= img_dims(*old(base)).0 as int
            || y as int + img_dims(*fg).1 <= 0 || y as int >= img_dims(*old(base)).1 as int)
            ==> img_pixels(*final(base)) == img_pixels(*old(base)),
        img_pixels(*final(base)) == overlaid(
            img_pixels(*old(base)),
            img_dims(*old(base)).0,
            img_dims(*old(base)).1,
            crop_px(
                img_pixels(*fg),
                img_dims(*fg).0,
                clip_off(x as int),
                clip_off(y as int),
                clip_len(x as int, img_dims(*fg).0, img_dims(*old(base)).0),
                clip_len(y as int, img_dims(*fg).1, img_dims(*old(base)).1),
            ),
            clip_len(x as int, img_dims(*fg).0, img_dims(*old(base)).0),
            clip_len(y as int, img_dims(*fg).1, img_dims(*old(base)).1),
            clip_at(x as int),
            clip_at(y as int),
        ),
{
    image::imageops::overlay(base, fg, x, y)
}

/// An in-memory RGBA bitmap with known dimensions. Decoded source
/// images, template canvases and every generated output are held in
/// this type; its view is the mathematical image it denotes.
pub struct Bitmap {
    // Always the RGBA8 variant: every constructor re-encodes or builds
    // RGBA8 and resize, crop and compositing keep the variant, so the
    // named sample results are applied only to images whose native
    // representation is the RGBA8 rendering the model speaks of.
    img: image::DynamicImage,
    width: u32,
    height: u32,
}

impl View for Bitmap {
    type V = Img;

    closed spec fn view(&self) -> Img {
        img_model(self.img)
    }
}

impl Bitmap {
    /// A well-formed bitmap caches its true dimensions, is at least one
    /// pixel wide and one pixel tall, and stays within `MAX_DIM` on
    /// each axis.
    pub closed spec fn wf(&self) -> bool {
        &&& self.width as nat == self@.w
        &&& self.height as nat == self@.h
        &&& 1 <= self@.w
        &&& 1 <= self@.h
        &&& self@.w <= MAX_DIM
        &&& self@.h <= MAX_DIM
    }

    /// Takes ownership of a decoded image. Returns `None` exactly when
    /// a dimension is zero or exceeds `MAX_DIM`; otherwise the bitmap
    /// denotes the same image, re-encoded as RGBA8.
    pub fn from_dynamic(img: image::DynamicImage) -> (r: Option<Bitmap>)
        ensures
            r is Some <==> (1 <= img_dims(img).0 && 1 <= img_dims(img).1
                && img_dims(img).0 <= MAX_DIM && img_dims(img).1 <= MAX_DIM),
            r is Some ==> r->0.wf() && r->0@ == img_model(img),
    {
        let normalized = raw_to_rgba(img);
        let (w, h) = raw_dims(&normalized);
        if w >= 1 && h >= 1 && w <= MAX_DIM && h <= MAX_DIM {
            Some(Bitmap { img: normalized, width: w, height: h })
        } else {
            None
        }
    }

    /// Builds a bitmap from raw RGBA8 samples, row major, four bytes per
    /// pixel. Returns `None` exactly when a dimension is zero or exceeds
    /// `MAX_DIM`, or the buffer length is not four bytes per pixel.
    pub fn from_pixels(w: u32, h: u32, bytes: Vec<u8>) -> (r: Option<Bitmap>)
        ensures
            r is Some <==> (1 <= w && 1 <= h && w <= MAX_DIM && h <= MAX_DIM
                && bytes@.len() == 4 * w * h),
            r is Some ==> r->0.wf() && r->0@ == (Img { w: w as nat, h: h as nat, px: bytes@ }),
    {
        proof {
            assert(4 * (w as int) * (h as int) <= 4 * 0xffff_ffff * 0xffff_ffff) by (nonlinear_arith)
                requires
                    w as int <= 0xffff_ffff,
                    h as int <= 0xffff_ffff,
            ;
        }
        if w >= 1 && h >= 1 && w <= MAX_DIM && h <= MAX_DIM
            && bytes.len() as u128 == 4u128 * (w as u128) * (h as u128) {
            let img = raw_from_pixels(w, h, bytes);
            Some(Bitmap { img, width: w, height: h })
        } else {
            None
        }
    }

    /// A fully transparent canvas of the given dimensions.
    pub fn blank(w: u32, h: u32) -> (r: Bitmap)
        requires
            1 <= w,
            1 <= h,
            w <= MAX_DIM,
            h <= MAX_DIM,
            4 * (w as int) * (h as int) <= usize::MAX as int,
        ensures
            r.wf(),
            r@ == blank_img(w as nat, h as nat),
    {
        proof {
            assert(4 * (w as int) <= 4 * (w as int) * (h as int)) by (nonlinear_arith)
                requires
                    1 <= h as int,
                    0 <= w as int,
            ;
        }
        let total: usize = 4usize * (w as usize) * (h as usize);
        let mut bytes: Vec<u8> = Vec::new();
        let mut i: usize = 0;
        while i < total
            invariant
                i <= total,
                bytes@.len() == i,
                forall|j: int| 0 <= j < i ==> bytes@[j] == 0u8,
            decreases total - i,
        {
            bytes.push(0u8);
            i = i + 1;
        }
        proof {
            assert(bytes@ =~= blank_img(w as nat, h as nat).px);
        }
        let img = raw_from_pixels(w, h, bytes);
        Bitmap { img, width: w, height: h }
    }

    /// The cached width, equal to the width of the denoted image.
    pub fn width(&self) -> (r: u32)
        requires
            self.wf(),
        ensures
            r as nat == self@.w,
    {
        self.width
    }

    /// The cached height, equal to the height of the denoted image.
    pub fn height(&self) -> (r: u32)
        requires
            self.wf(),
        ensures
            r as nat == self@.h,
    {
        self.height
    }

    /// The RGBA8 sample bytes of the denoted image, row major.
    pub fn pixels(&self) -> (r: Vec<u8>)
        ensures
            r@ == self@.px,
    {
        raw_pixels(&self.img)
    }

    /// An independent copy denoting the same image.
    pub fn duplicate(&self) -> (r: Bitmap)
        requires
            self.wf(),
        ensures
            r.wf(),
            r@ == self@,
    {
        Bitmap { img: raw_clone(&self.img), width: self.width, height: self.height }
    }

    /// Aspect-preserving Lanczos-3 resize into a `tw` by `th` box. The
    /// result never exceeds the box in either dimension, and keeps the
    /// source aspect ratio within one pixel of rounding per axis.
    pub fn resize_fit(&self, tw: u32, th: u32) -> (r: Bitmap)
        requires
            self.wf(),
            1 <= tw,
            1 <= th,
            tw <= MAX_DIM,
            th <= MAX_DIM,
        ensures
            r.wf(),
            r@ == fit_img(self@, tw as nat, th as nat),
            r@.w <= tw as nat,
            r@.h <= th as nat,
            1 <= r@.w,
            1 <= r@.h,
            aspect_within_rounding(r@.w as int, r@.h as int, self@.w as int, self@.h as int),
    {
        let resized = raw_resize_fit(&self.img, tw, th);
        let (w, h) = raw_dims(&resized);
        Bitmap { img: resized, width: w, height: h }
    }

    /// Crop-to-fill Lanczos-3 resize: the result is exactly `tw` by
    /// `th`, whatever the source aspect ratio.
    pub fn resize_fill(&self, tw: u32, th: u32) -> (r: Bitmap)
        requires
            self.wf(),
            1 <= tw,
            1 <= th,
            tw <= MAX_DIM,
            th <= MAX_DIM,
        ensures
            r.wf(),
            r@ == fill_img(self@, tw as nat, th as nat),
            r@.w == tw as nat,
            r@.h == th as nat,
    {
        let resized = raw_resize_fill(&self.img, tw, th);
        let (w, h) = raw_dims(&resized);
        Bitmap { img: resized, width: w, height: h }
    }

    /// Alpha-composites `fg` onto this bitmap at signed offset `(x, y)`.
    /// Foreground pixels outside the base are clipped: any offset is
    /// accepted, the dimensions do not change, pixels outside the
    /// foreground's rectangle keep their bytes, and the result equals
    /// compositing only the visible sub-region of the foreground.
    pub fn overlay(&mut self, fg: &Bitmap, x: i64, y: i64)
        requires
            old(self).wf(),
        ensures
            final(self).wf(),
            final(self)@ == overlay_img(old(self)@, fg@, x as int, y as int),
            final(self)@.px.len() == old(self)@.px.len(),
            composited_pointwise(
                old(self)@.px,
                final(self)@.px,
                old(self)@.w,
                old(self)@.h,
                fg@.px,
                fg@.w,
                fg@.h,
                x as int,
                y as int,
            ),
            final(self)@.px == overlaid(
                old(self)@.px,
                old(self)@.w,
                old(self)@.h,
                crop_px(
                    fg@.px,
                    fg@.w,
                    clip_off(x as int),
                    clip_off(y as int),
                    clip_len(x as int, fg@.w, old(self)@.w),
                    clip_len(y as int, fg@.h, old(self)@.h),
                ),
                clip_len(x as int, fg@.w, old(self)@.w),
                clip_len(y as int, fg@.h, old(self)@.h),
                clip_at(x as int),
                clip_at(y as int),
            ),
    {
        raw_overlay(&mut self.img, &fg.img, x, y)
    }
}

} // verus!
