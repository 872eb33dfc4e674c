use vstd::prelude::*;

verus! {

/// Mathematical model of an RGBA bitmap: a width, a height, and the
/// row-major RGBA8 sample bytes, four per pixel.
#[verifier::ext_equal]
pub ghost struct Img {
    pub w: nat,
    pub h: nat,
    pub px: Seq<u8>,
}

/// What a Lanczos-3 aspect-preserving resize into a target box returns:
/// the result width, the result height, and the result samples. The
/// result depends on the source samples, the source dimensions and the
/// target box alone.
pub uninterp spec fn fit_resized(px: Seq<u8>, w: nat, h: nat, tw: nat, th: nat) -> (nat, nat, Seq<u8>);

/// What a Lanczos-3 crop-to-fill resize returns: the samples of an image
/// of exactly the target dimensions. The result depends on the source
/// samples, the source dimensions and the target box alone.
pub uninterp spec fn fill_resized(px: Seq<u8>, w: nat, h: nat, tw: nat, th: nat) -> Seq<u8>;

/// What alpha-compositing a foreground onto a base at a signed offset
/// returns: the samples of the composited base. Foreground pixels that
/// fall outside the base are clipped; the base keeps its dimensions.
pub uninterp spec fn overlaid(
    base_px: Seq<u8>,
    base_w: nat,
    base_h: nat,
    fg_px: Seq<u8>,
    fg_w: nat,
    fg_h: nat,
    x: int,
    y: int,
) -> Seq<u8>;

/// The resized dimensions `(rw, rh)` preserve the source aspect ratio
/// `w : h` within one pixel of rounding per axis: the cross products
/// differ by at most the larger source dimension.
pub open spec fn aspect_within_rounding(rw: int, rh: int, w: int, h: int) -> bool {
    let bound = if w < h { h } else { w };
    &&& rw * h - rh * w <= bound
    &&& rh * w - rw * h <= bound
}

/// The image an aspect-preserving resize of `src` into a `tw` by `th`
/// box produces.
pub open spec fn fit_img(src: Img, tw: nat, th: nat) -> Img {
    let r = fit_resized(src.px, src.w, src.h, tw, th);
    Img { w: r.0, h: r.1, px: r.2 }
}

/// The image a crop-to-fill resize of `src` to exactly `tw` by `th`
/// produces.
pub open spec fn fill_img(src: Img, tw: nat, th: nat) -> Img {
    Img { w: tw, h: th, px: fill_resized(src.px, src.w, src.h, tw, th) }
}

/// The image that compositing `fg` onto `base` at offset `(x, y)`
/// produces: same dimensions as the base, composited samples.
pub open spec fn overlay_img(base: Img, fg: Img, x: int, y: int) -> Img {
    Img {
        w: base.w,
        h: base.h,
        px: overlaid(base.px, base.w, base.h, fg.px, fg.w, fg.h, x, y),
    }
}

/// A fully transparent canvas: every sample byte is zero.
pub open spec fn blank_img(w: nat, h: nat) -> Img {
    Img { w, h, px: Seq::new(4 * w * h, |i: int| 0u8) }
}

/// The byte offset of channel `c` of pixel `(i, j)` in the row-major
/// RGBA8 samples of an image `w` pixels wide.
pub open spec fn sample_index(w: nat, i: int, j: int, c: int) -> int {
    4 * (j * w + i) + c
}

/// The four sample bytes of pixel `(i, j)` of an image `w` pixels wide.
pub open spec fn pixel_bytes(px: Seq<u8>, w: nat, i: int, j: int) -> Seq<u8> {
    px.subrange(sample_index(w, i, j, 0), sample_index(w, i, j, 0) + 4)
}

/// What compositing guarantees pixel by pixel: a base pixel outside the
/// foreground's rectangle keeps its bytes; where the overlapping
/// foreground pixel is fully opaque its bytes replace the base's; where
/// it is fully transparent the base's bytes stay. (A partial alpha
/// blends by the standard over formula, which stays behind `overlaid`.)
pub open spec fn composited_pointwise(
    bp: Seq<u8>,
    np: Seq<u8>,
    bw: nat,
    bh: nat,
    fp: Seq<u8>,
    fw: nat,
    fh: nat,
    x: int,
    y: int,
) -> bool {
    forall|i: int, j: int| #![trigger pixel_bytes(np, bw, i, j)]
        0 <= i && i < bw && 0 <= j && j < bh ==> {
            let inside = x <= i && i < x + fw && y <= j && j < y + fh;
            &&& !inside ==> pixel_bytes(np, bw, i, j) == pixel_bytes(bp, bw, i, j)
            &&& inside && fp[sample_index(fw, i - x, j - y, 3)] == 255u8
                ==> pixel_bytes(np, bw, i, j) == pixel_bytes(fp, fw, i - x, j - y)
            &&& inside && fp[sample_index(fw, i - x, j - y, 3)] == 0u8
                ==> pixel_bytes(np, bw, i, j) == pixel_bytes(bp, bw, i, j)
        }
}

/// The row-major RGBA8 samples of the `cw` by `ch` sub-image of an
/// image `w` pixels wide whose top-left corner is at `(cx, cy)`.
pub open spec fn crop_px(px: Seq<u8>, w: nat, cx: int, cy: int, cw: nat, ch: nat) -> Seq<u8> {
    Seq::new(
        4 * cw * ch,
        |n: int| px[sample_index(
            w,
            cx + (n % (4 * cw as int)) / 4,
            cy + n / (4 * cw as int),
            n % 4,
        )],
    )
}

/// How much of a foreground placed at offset `o` is clipped off before
/// the base begins.
pub open spec fn clip_off(o: int) -> int {
    if o < 0 { -o } else { 0 }
}

/// The offset at which the visible part of the foreground lands on the
/// base.
pub open spec fn clip_at(o: int) -> int {
    if o < 0 { 0 } else { o }
}

/// The visible extent of a foreground of size `f` placed at offset `o`
/// on a base of size `b`.
pub open spec fn clip_len(o: int, f: nat, b: nat) -> nat {
    let l = if f - clip_off(o) < b - clip_at(o) { f - clip_off(o) } else { b - clip_at(o) };
    if l < 0 { 0nat } else { l as nat }
}

} // verus!
