use vstd::prelude::*;

use crate::bitmap::Bitmap;
use crate::geometry::{
    slot, slot_spec, SlotRect, PAINTING_HEIGHT, PAINTING_WIDTH, PAINTING_X, PAINTING_Y, SLOT_COUNT,
    TIP_HEIGHT, TIP_WIDTH,
};
use crate::model::{
    blank_img, composited_pointwise, fill_img, fit_img, overlay_img, pixel_bytes, Img,
};

verus! {

/// A resized source image together with the signed offset at which it
/// is to be composited onto the atlas canvas.
pub struct Placed {
    pub bmp: Bitmap,
    pub x: i64,
    pub y: i64,
}

/// What one atlas slot contributes: the source resized to fit the slot,
/// placed so that its right edge meets the slot's right edge and its top
/// edge meets the slot's top edge.
pub open spec fn placed_fit(src: Img, s: SlotRect) -> (Img, int, int) {
    let r = fit_img(src, s.w as nat, s.h as nat);
    (r, s.x + s.w - r.w, s.y as int)
}

/// The models of a sequence of placed overlays.
pub open spec fn placed_views(parts: Seq<Placed>) -> Seq<(Img, int, int)> {
    parts.map(|k: int, p: Placed| (p.bmp@, p.x as int, p.y as int))
}

/// The canvas after the first `k` overlays have been composited onto
/// the template, in order.
pub open spec fn merged_prefix(tpl: Img, parts: Seq<(Img, int, int)>, k: int) -> Img
    decreases k,
{
    if k <= 0 {
        tpl
    } else {
        let p = parts[k - 1];
        overlay_img(merged_prefix(tpl, parts, k - 1), p.0, p.1, p.2)
    }
}

/// Pixel `(i, j)` lies outside every placed overlay's rectangle.
pub open spec fn outside_all(parts: Seq<(Img, int, int)>, i: int, j: int) -> bool {
    forall|k: int| 0 <= k < parts.len() ==> !(
        (#[trigger] parts[k]).1 <= i && i < parts[k].1 + parts[k].0.w
        && parts[k].2 <= j && j < parts[k].2 + parts[k].0.h
    )
}

/// The five placed overlays the atlas composes: one per slot, fed by
/// the source images in slot order.
pub open spec fn atlas_parts(srcs: Seq<Img>) -> Seq<(Img, int, int)> {
    Seq::new(SLOT_COUNT as nat, |k: int| placed_fit(srcs[k], slot_spec(k)))
}

/// The finished atlas: the poster template with all five slot overlays
/// composited in slot order.
pub open spec fn atlas_img(tpl: Img, srcs: Seq<Img>) -> Img {
    merged_prefix(tpl, atlas_parts(srcs), SLOT_COUNT as int)
}

/// The finished tip card: the source resized to fit a transparent
/// 796 by 1024 canvas, right-aligned and top-aligned.
pub open spec fn tips_img(src: Img) -> Img {
    let r = fit_img(src, TIP_WIDTH as nat, TIP_HEIGHT as nat);
    overlay_img(blank_img(TIP_WIDTH as nat, TIP_HEIGHT as nat), r, TIP_WIDTH - r.w, 0)
}

/// The finished painting: the painting template with the source cropped
/// to exactly 243 by 324 and composited at the fixed offset (264, 19).
pub open spec fn painting_img(tpl: Img, src: Img) -> Img {
    overlay_img(tpl, fill_img(src, PAINTING_WIDTH as nat, PAINTING_HEIGHT as nat), PAINTING_X as int, PAINTING_Y as int)
}

/// Resizes the source for slot `i` and computes its placement: the
/// parallel phase of the atlas generator, one independent call per slot.
pub fn atlas_overlay(i: usize, src: &Bitmap) -> (r: Placed)
    requires
        i < SLOT_COUNT,
        src.wf(),
    ensures
        r.bmp.wf(),
        r.bmp@ == placed_fit(src@, slot_spec(i as int)).0,
        r.x as int == placed_fit(src@, slot_spec(i as int)).1,
        r.y as int == placed_fit(src@, slot_spec(i as int)).2,
{
    let s = slot(i);
    let resized = src.resize_fit(s.w, s.h);
    let x: u32 = s.x + s.w - resized.width();
    Placed { bmp: resized, x: x as i64, y: s.y as i64 }
}

/// Composites the placed overlays onto a fresh copy of the template,
/// strictly in order: the sequential merge phase of the atlas generator.
/// Outside every placed rectangle the template's pixels keep their bytes.
pub fn atlas_merge(template: &Bitmap, parts: &Vec<Placed>) -> (r: Bitmap)
    requires
        template.wf(),
    ensures
        r.wf(),
        r@ == merged_prefix(template@, placed_views(parts@), parts@.len() as int),
        forall|i: int, j: int| #![trigger pixel_bytes(r@.px, template@.w, i, j)]
            0 <= i && i < template@.w && 0 <= j && j < template@.h
            && outside_all(placed_views(parts@), i, j)
            ==> pixel_bytes(r@.px, template@.w, i, j)
                == pixel_bytes(template@.px, template@.w, i, j),
{
    let mut canvas = template.duplicate();
    let mut k: usize = 0;
    while k < parts.len()
        invariant
            canvas.wf(),
            k <= parts@.len(),
            canvas@ == merged_prefix(template@, placed_views(parts@), k as int),
            canvas@.w == template@.w,
            canvas@.h == template@.h,
            forall|i: int, j: int| #![trigger pixel_bytes(canvas@.px, template@.w, i, j)]
                0 <= i && i < template@.w && 0 <= j && j < template@.h
                && outside_all(placed_views(parts@).take(k as int), i, j)
                ==> pixel_bytes(canvas@.px, template@.w, i, j)
                    == pixel_bytes(template@.px, template@.w, i, j),
        decreases parts@.len() - k,
    {
        let ghost prev = canvas@;
        let p = &parts[k];
        canvas.overlay(&p.bmp, p.x, p.y);
        proof {
            let views = placed_views(parts@);
            assert(views[k as int] == (p.bmp@, p.x as int, p.y as int));
            assert forall|i: int, j: int|
                0 <= i && i < template@.w && 0 <= j && j < template@.h
                && outside_all(views.take(k as int + 1), i, j)
                implies #[trigger] pixel_bytes(canvas@.px, template@.w, i, j)
                    == pixel_bytes(template@.px, template@.w, i, j) by {
                assert(views.take(k as int + 1)[k as int] == views[k as int]);
                assert(!(p.x as int <= i && i < p.x as int + p.bmp@.w
                    && p.y as int <= j && j < p.y as int + p.bmp@.h));
                assert(outside_all(views.take(k as int), i, j)) by {
                    assert forall|k2: int| 0 <= k2 < k as int implies !(
                        (#[trigger] views.take(k as int)[k2]).1 <= i
                        && i < views.take(k as int)[k2].1 + views.take(k as int)[k2].0.w
                        && views.take(k as int)[k2].2 <= j
                        && j < views.take(k as int)[k2].2 + views.take(k as int)[k2].0.h
                    ) by {
                        assert(views.take(k as int)[k2] == views[k2]);
                        assert(views.take(k as int + 1)[k2] == views[k2]);
                    }
                }
                assert(pixel_bytes(canvas@.px, prev.w, i, j) == pixel_bytes(prev.px, prev.w, i, j));
                assert(pixel_bytes(prev.px, template@.w, i, j)
                    == pixel_bytes(template@.px, template@.w, i, j));
            }
        }
        k = k + 1;
    }
    proof {
        assert(placed_views(parts@).take(parts@.len() as int) =~= placed_views(parts@));
    }
    canvas
}

/// Generates one atlas: resizes the five sources to their slots, then
/// composites them onto a copy of the poster template in slot order.
/// Outside the five placed rectangles the template's pixels keep their
/// bytes.
pub fn generate_atlas(template: &Bitmap, sources: [&Bitmap; 5]) -> (r: Bitmap)
    requires
        template.wf(),
        forall|k: int| 0 <= k < 5 ==> #[trigger] sources[k].wf(),
    ensures
        r.wf(),
        r@ == atlas_img(template@, sources@.map(|k: int, b: &Bitmap| b@)),
        forall|i: int, j: int| #![trigger pixel_bytes(r@.px, template@.w, i, j)]
            0 <= i && i < template@.w && 0 <= j && j < template@.h
            && outside_all(atlas_parts(sources@.map(|k: int, b: &Bitmap| b@)), i, j)
            ==> pixel_bytes(r@.px, template@.w, i, j)
                == pixel_bytes(template@.px, template@.w, i, j),
{
    let ghost srcs: Seq<Img> = sources@.map(|k: int, b: &Bitmap| b@);
    let mut parts: Vec<Placed> = Vec::new();
    let mut k: usize = 0;
    while k < SLOT_COUNT
        invariant
            k <= 5,
            parts@.len() == k,
            srcs == sources@.map(|j: int, b: &Bitmap| b@),
            forall|j: int| 0 <= j < 5 ==> #[trigger] sources[j].wf(),
            forall|j: int| 0 <= j < k ==> {
                &&& (#[trigger] parts@[j]).bmp@ == placed_fit(srcs[j], slot_spec(j)).0
                &&& parts@[j].x as int == placed_fit(srcs[j], slot_spec(j)).1
                &&& parts@[j].y as int == placed_fit(srcs[j], slot_spec(j)).2
            },
        decreases 5 - k,
    {
        let p = atlas_overlay(k, sources[k]);
        parts.push(p);
        k = k + 1;
    }
    proof {
        assert forall|j: int| 0 <= j < 5 implies placed_views(parts@)[j] == atlas_parts(srcs)[j] by {
            assert(placed_views(parts@)[j] == (parts@[j].bmp@, parts@[j].x as int, parts@[j].y as int));
            assert(atlas_parts(srcs)[j] == placed_fit(srcs[j], slot_spec(j)));
        }
        assert(placed_views(parts@) =~= atlas_parts(srcs));
    }
    atlas_merge(template, &parts)
}

/// Generates one tip card: the source resized to fit 796 by 1024,
/// composited right-aligned and top-aligned onto a transparent canvas.
/// Outside the placed image the canvas keeps its transparent bytes.
pub fn generate_tips(poster: &Bitmap) -> (r: Bitmap)
    requires
        poster.wf(),
    ensures
        r.wf(),
        r@ == tips_img(poster@),
        composited_pointwise(
            blank_img(TIP_WIDTH as nat, TIP_HEIGHT as nat).px,
            r@.px,
            TIP_WIDTH as nat,
            TIP_HEIGHT as nat,
            fit_img(poster@, TIP_WIDTH as nat, TIP_HEIGHT as nat).px,
            fit_img(poster@, TIP_WIDTH as nat, TIP_HEIGHT as nat).w,
            fit_img(poster@, TIP_WIDTH as nat, TIP_HEIGHT as nat).h,
            TIP_WIDTH - fit_img(poster@, TIP_WIDTH as nat, TIP_HEIGHT as nat).w,
            0,
        ),
{
    let mut base = Bitmap::blank(TIP_WIDTH, TIP_HEIGHT);
    let resized = poster.resize_fit(TIP_WIDTH, TIP_HEIGHT);
    let x: u32 = TIP_WIDTH - resized.width();
    base.overlay(&resized, x as i64, 0);
    base
}

/// Generates one painting: the source cropped to exactly 243 by 324,
/// composited onto a copy of the painting template at (264, 19).
/// Outside that rectangle the template's pixels keep their bytes.
pub fn generate_painting(template: &Bitmap, poster: &Bitmap) -> (r: Bitmap)
    requires
        template.wf(),
        poster.wf(),
    ensures
        r.wf(),
        r@ == painting_img(template@, poster@),
        composited_pointwise(
            template@.px,
            r@.px,
            template@.w,
            template@.h,
            fill_img(poster@, PAINTING_WIDTH as nat, PAINTING_HEIGHT as nat).px,
            PAINTING_WIDTH as nat,
            PAINTING_HEIGHT as nat,
            PAINTING_X as int,
            PAINTING_Y as int,
        ),
{
    let mut base = template.duplicate();
    let resized = poster.resize_fill(PAINTING_WIDTH, PAINTING_HEIGHT);
    base.overlay(&resized, PAINTING_X, PAINTING_Y);
    base
}

} // verus!
