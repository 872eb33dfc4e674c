use vstd::prelude::*;

use crate::bitmap::Bitmap;
use crate::generate::{
    atlas_img, generate_atlas, generate_painting, generate_tips, painting_img, tips_img,
};
use crate::model::Img;

verus! {

/// The index of the source image that feeds slot `k` of output `i`
/// when `n` images were decoded: selection wraps modulo `n`.
pub open spec fn window_index(i: int, k: int, n: int) -> int {
    (i + k) % n
}

/// The models of a store of decoded images.
pub open spec fn store_views(s: Seq<Bitmap>) -> Seq<Img> {
    s.map(|k: int, b: Bitmap| b@)
}

/// Every image of a store is well formed.
pub open spec fn store_wf(s: Seq<Bitmap>) -> bool {
    forall|k: int| 0 <= k < s.len() ==> (#[trigger] s[k]).wf()
}

/// The five source models that feed the atlas of output `i`, in slot
/// order.
pub open spec fn selected(store: Seq<Img>, i: int) -> Seq<Img> {
    Seq::new(5, |k: int| store[window_index(i, k, store.len() as int)])
}

/// The three output models for index `i`: the atlas, the tip card and
/// the painting.
pub open spec fn outputs_spec(poster_tpl: Img, painting_tpl: Img, store: Seq<Img>, i: int) -> (Img, Img, Img) {
    (
        atlas_img(poster_tpl, selected(store, i)),
        tips_img(store[window_index(i, 0, store.len() as int)]),
        painting_img(painting_tpl, store[window_index(i, 0, store.len() as int)]),
    )
}

/// The modulo selection never leaves the store: for any store of at
/// least one image, every slot of every output window picks an index
/// within bounds, however small the store is.
pub proof fn lemma_window_in_bounds(i: int, k: int, n: int)
    requires
        0 <= i,
        0 <= k,
        1 <= n,
    ensures
        0 <= window_index(i, k, n) < n,
{
}

/// The five store indices that feed the atlas of output `i`. Selection
/// wraps modulo `n`, so every index is in bounds for any `n` of at
/// least one, however small.
pub fn window_indices(i: usize, n: usize) -> (r: [usize; 5])
    requires
        1 <= n,
        i + 4 <= usize::MAX,
    ensures
        forall|k: int| 0 <= k < 5 ==> #[trigger] r[k] as int == window_index(i as int, k, n as int),
        forall|k: int| 0 <= k < 5 ==> #[trigger] r[k] < n,
{
    [i % n, (i + 1) % n, (i + 2) % n, (i + 3) % n, (i + 4) % n]
}

/// The three generated outputs for one source index.
pub struct OutputSet {
    pub poster: Bitmap,
    pub tip: Bitmap,
    pub painting: Bitmap,
}

/// Generates the three variants for output index `i`: the atlas over
/// the five-image window starting at `i`, and the tip card and the
/// painting over image `i mod n`.
pub fn generate_for_index(
    poster_tpl: &Bitmap,
    painting_tpl: &Bitmap,
    store: &Vec<Bitmap>,
    i: usize,
) -> (r: OutputSet)
    requires
        poster_tpl.wf(),
        painting_tpl.wf(),
        store_wf(store@),
        1 <= store@.len(),
        i + 4 <= usize::MAX,
    ensures
        r.poster.wf(),
        r.tip.wf(),
        r.painting.wf(),
        r.poster@ == outputs_spec(poster_tpl@, painting_tpl@, store_views(store@), i as int).0,
        r.tip@ == outputs_spec(poster_tpl@, painting_tpl@, store_views(store@), i as int).1,
        r.painting@ == outputs_spec(poster_tpl@, painting_tpl@, store_views(store@), i as int).2,
{
    let n = store.len();
    let w = window_indices(i, n);
    let sources: [&Bitmap; 5] = [&store[w[0]], &store[w[1]], &store[w[2]], &store[w[3]], &store[w[4]]];
    let atlas = generate_atlas(poster_tpl, sources);
    let tip = generate_tips(&store[w[0]]);
    let painting = generate_painting(painting_tpl, &store[w[0]]);
    proof {
        let views = store_views(store@);
        assert forall|k: int| 0 <= k < 5 implies sources@.map(|j: int, b: &Bitmap| b@)[k]
            == selected(views, i as int)[k] by {
            assert(sources@.map(|j: int, b: &Bitmap| b@)[k] == sources@[k]@);
        }
        assert(sources@.map(|j: int, b: &Bitmap| b@) =~= selected(views, i as int));
    }
    OutputSet { poster: atlas, tip, painting }
}

/// Why a batch cannot be generated.
#[derive(Clone, Copy, Debug, PartialEq, Eq, Structural)]
pub enum GenError {
    /// No image was decoded, so the modulo selection has no image to
    /// pick from.
    EmptyStore,
}

/// Generates the three variants for every output index `0 .. n`, in
/// index order. Fails exactly when the store is empty; otherwise the
/// result holds one output set per decoded image.
pub fn generate_batch(
    poster_tpl: &Bitmap,
    painting_tpl: &Bitmap,
    store: &Vec<Bitmap>,
) -> (r: Result<Vec<OutputSet>, GenError>)
    requires
        poster_tpl.wf(),
        painting_tpl.wf(),
        store_wf(store@),
        store@.len() + 4 <= usize::MAX,
    ensures
        r is Err <==> store@.len() == 0,
        r is Err ==> r->Err_0 == GenError::EmptyStore,
        r is Ok ==> (r->Ok_0)@.len() == store@.len(),
        r is Ok ==> forall|i: int| 0 <= i < store@.len() ==> {
            let o = #[trigger] (r->Ok_0)@[i];
            &&& o.poster.wf()
            &&& o.tip.wf()
            &&& o.painting.wf()
            &&& o.poster@ == outputs_spec(poster_tpl@, painting_tpl@, store_views(store@), i).0
            &&& o.tip@ == outputs_spec(poster_tpl@, painting_tpl@, store_views(store@), i).1
            &&& o.painting@ == outputs_spec(poster_tpl@, painting_tpl@, store_views(store@), i).2
        },
{
    if store.len() == 0 {
        return Err(GenError::EmptyStore);
    }
    let mut out: Vec<OutputSet> = Vec::new();
    let mut i: usize = 0;
    while i < store.len()
        invariant
            poster_tpl.wf(),
            painting_tpl.wf(),
            store_wf(store@),
            1 <= store@.len(),
            store@.len() + 4 <= usize::MAX,
            i <= store@.len(),
            out@.len() == i,
            forall|j: int| 0 <= j < i ==> {
                let o = #[trigger] out@[j];
                &&& o.poster.wf()
                &&& o.tip.wf()
                &&& o.painting.wf()
                &&& o.poster@ == outputs_spec(poster_tpl@, painting_tpl@, store_views(store@), j).0
                &&& o.tip@ == outputs_spec(poster_tpl@, painting_tpl@, store_views(store@), j).1
                &&& o.painting@ == outputs_spec(poster_tpl@, painting_tpl@, store_views(store@), j).2
            },
        decreases store@.len() - i,
    {
        let o = generate_for_index(poster_tpl, painting_tpl, store, i);
        out.push(o);
        i = i + 1;
    }
    Ok(out)
}

/// Determinism of the pipeline: the output models for an index are a
/// function of the template models, the store models and the index
/// alone, so two runs over identical inputs produce identical outputs.
pub proof fn lemma_outputs_deterministic(
    pt1: Img,
    qt1: Img,
    s1: Seq<Img>,
    i1: int,
    pt2: Img,
    qt2: Img,
    s2: Seq<Img>,
    i2: int,
)
    requires
        pt1 == pt2,
        qt1 == qt2,
        s1 == s2,
        i1 == i2,
    ensures
        outputs_spec(pt1, qt1, s1, i1) == outputs_spec(pt2, qt2, s2, i2),
{
}

} // verus!
