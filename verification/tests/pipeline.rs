use lethal_posters::bitmap::Bitmap;
use lethal_posters::generate::{generate_atlas, generate_painting, generate_tips};
use lethal_posters::geometry::slot;
use lethal_posters::orchestrate::{generate_batch, generate_for_index, window_indices, GenError};

fn solid(w: u32, h: u32, rgba: [u8; 4]) -> Bitmap {
    let mut bytes: Vec<u8> = Vec::new();
    for _ in 0..(w as usize * h as usize) {
        bytes.extend_from_slice(&rgba);
    }
    Bitmap::from_pixels(w, h, bytes).unwrap()
}

fn pixel(b: &Bitmap, x: u32, y: u32) -> [u8; 4] {
    let px = b.pixels();
    let w = b.width() as usize;
    let i = 4 * (y as usize * w + x as usize);
    [px[i], px[i + 1], px[i + 2], px[i + 3]]
}

#[test]
fn window_wraps_for_small_stores() {
    for n in [1usize, 2, 5, 7] {
        for i in 0..n {
            let w = window_indices(i, n);
            for k in 0..5 {
                assert_eq!(w[k], (i + k) % n);
                assert!(w[k] < n);
            }
        }
    }
    assert_eq!(window_indices(0, 1), [0, 0, 0, 0, 0]);
    assert_eq!(window_indices(1, 2), [1, 0, 1, 0, 1]);
    assert_eq!(window_indices(6, 7), [6, 0, 1, 2, 3]);
}

#[test]
fn slot_table_matches_template_layout() {
    let expected = [
        (0u32, 0u32, 341u32, 559u32),
        (346, 0, 284, 559),
        (641, 58, 274, 243),
        (184, 620, 411, 364),
        (632, 320, 372, 672),
    ];
    for i in 0..5 {
        let s = slot(i);
        assert_eq!((s.x, s.y, s.w, s.h), expected[i]);
    }
}

#[test]
fn tips_card_is_right_aligned_on_blank_canvas() {
    // A 500x1000 source fits 796x1024 as 512x1024, so it is placed at
    // x = 796 - 512 = 284; everything left of it stays transparent.
    let src = solid(500, 1000, [200, 10, 10, 255]);
    let tip = generate_tips(&src);
    assert_eq!((tip.width(), tip.height()), (796, 1024));
    assert_eq!(pixel(&tip, 283, 10), [0, 0, 0, 0]);
    assert_eq!(pixel(&tip, 284, 10), [200, 10, 10, 255]);
    assert_eq!(pixel(&tip, 795, 1023), [200, 10, 10, 255]);
    assert_eq!(pixel(&tip, 0, 1023), [0, 0, 0, 0]);
}

#[test]
fn painting_is_cropped_block_at_fixed_offset() {
    let template = solid(507, 343, [0, 255, 0, 255]);
    let src = solid(500, 500, [255, 0, 0, 255]);
    let painting = generate_painting(&template, &src);
    assert_eq!((painting.width(), painting.height()), (507, 343));
    // The 243x324 block sits at (264, 19); outside it the template shows.
    assert_eq!(pixel(&painting, 264, 19), [255, 0, 0, 255]);
    assert_eq!(pixel(&painting, 263, 19), [0, 255, 0, 255]);
    assert_eq!(pixel(&painting, 264, 18), [0, 255, 0, 255]);
    assert_eq!(pixel(&painting, 506, 342), [255, 0, 0, 255]);
    assert_eq!(pixel(&painting, 0, 0), [0, 255, 0, 255]);
}

#[test]
fn atlas_places_right_aligned_slots() {
    // 1024x1024 white poster template, five distinct 500x500 sources.
    let template = solid(1024, 1024, [255, 255, 255, 255]);
    let colors = [
        [255u8, 0, 0, 255],
        [0, 255, 0, 255],
        [0, 0, 255, 255],
        [255, 255, 0, 255],
        [0, 255, 255, 255],
    ];
    let sources: Vec<Bitmap> = colors.iter().map(|c| solid(500, 500, *c)).collect();
    let refs: [&Bitmap; 5] = [&sources[0], &sources[1], &sources[2], &sources[3], &sources[4]];
    let atlas = generate_atlas(&template, refs);
    assert_eq!((atlas.width(), atlas.height()), (1024, 1024));
    // A square source resized to fit each slot is square, right-aligned
    // and top-aligned: (x + w - side, y) with side = min(w, h).
    let placements = [
        (0u32, 0u32, 341u32),
        (346, 0, 284),
        (672, 58, 243),
        (231, 620, 364),
        (632, 320, 372),
    ];
    for (k, (x, y, side)) in placements.iter().enumerate() {
        assert_eq!(pixel(&atlas, *x, *y), colors[k]);
        assert_eq!(pixel(&atlas, x + side / 2, y + side / 2), colors[k]);
        assert_eq!(pixel(&atlas, x + side - 1, y + side - 1), colors[k]);
        if *x > 0 {
            assert_eq!(pixel(&atlas, x - 1, *y), [255, 255, 255, 255]);
        }
    }
}

#[test]
fn five_sources_end_to_end() {
    let poster_template = solid(1024, 1024, [255, 255, 255, 255]);
    let painting_template = solid(507, 343, [9, 9, 9, 255]);
    let store: Vec<Bitmap> = (0..5u8)
        .map(|k| solid(500, 500, [k * 40, 255 - k * 40, k, 255]))
        .collect();
    let out = generate_for_index(&poster_template, &painting_template, &store, 0);
    assert_eq!((out.poster.width(), out.poster.height()), (1024, 1024));
    assert_eq!((out.tip.width(), out.tip.height()), (796, 1024));
    assert_eq!((out.painting.width(), out.painting.height()), (507, 343));
    // Tip and painting are fed by the image at index 0.
    assert_eq!(pixel(&out.tip, 795, 0), [0, 255, 0, 255]);
    assert_eq!(pixel(&out.painting, 264, 19), [0, 255, 0, 255]);
}

#[test]
fn batch_produces_one_output_set_per_image() {
    let poster_template = solid(128, 128, [255, 255, 255, 255]);
    let painting_template = solid(300, 330, [9, 9, 9, 255]);
    for n in [1usize, 3] {
        let store: Vec<Bitmap> = (0..n)
            .map(|k| solid(16, 16, [(k * 30) as u8, 0, 0, 255]))
            .collect();
        let out = generate_batch(&poster_template, &painting_template, &store).unwrap();
        assert_eq!(out.len(), n);
        for o in &out {
            assert_eq!((o.poster.width(), o.poster.height()), (128, 128));
            assert_eq!((o.tip.width(), o.tip.height()), (796, 1024));
            assert_eq!((o.painting.width(), o.painting.height()), (300, 330));
        }
    }
}

#[test]
fn batch_matches_per_index_generation() {
    let poster_template = solid(100, 100, [255, 255, 255, 255]);
    let painting_template = solid(280, 300, [9, 9, 9, 255]);
    let store: Vec<Bitmap> = (0..2u8).map(|k| solid(20, 15, [k, k, k, 255])).collect();
    let batch = generate_batch(&poster_template, &painting_template, &store).unwrap();
    for i in 0..2 {
        let single = generate_for_index(&poster_template, &painting_template, &store, i);
        assert_eq!(batch[i].poster.pixels(), single.poster.pixels());
        assert_eq!(batch[i].tip.pixels(), single.tip.pixels());
        assert_eq!(batch[i].painting.pixels(), single.painting.pixels());
    }
}

#[test]
fn identical_inputs_give_identical_outputs() {
    let poster_template = solid(200, 200, [200, 200, 200, 255]);
    let painting_template = solid(280, 300, [9, 9, 9, 255]);
    let store: Vec<Bitmap> = (0..2u8).map(|k| solid(50, 40, [k, 100, 50, 255])).collect();
    let first = generate_for_index(&poster_template, &painting_template, &store, 1);
    let second = generate_for_index(&poster_template, &painting_template, &store, 1);
    assert_eq!(first.poster.pixels(), second.poster.pixels());
    assert_eq!(first.tip.pixels(), second.tip.pixels());
    assert_eq!(first.painting.pixels(), second.painting.pixels());
}

#[test]
fn empty_store_is_a_fatal_error() {
    let poster_template = solid(1024, 1024, [255, 255, 255, 255]);
    let painting_template = solid(507, 343, [9, 9, 9, 255]);
    let store: Vec<Bitmap> = Vec::new();
    let r = generate_batch(&poster_template, &painting_template, &store);
    match r {
        Err(e) => assert_eq!(e, GenError::EmptyStore),
        Ok(_) => panic!("an empty store must be rejected"),
    }
}
