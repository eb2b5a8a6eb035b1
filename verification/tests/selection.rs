use chunk_glitch::image_buf::{get_random_span, random_transpose, Span};
use chunk_glitch::sampler::{Sampler, ScriptedSampler, ThreadSampler};
use chunk_glitch::span::{select_destination, select_span};

fn script(seed: u32, len: usize) -> Vec<u32> {
    let mut state = seed;
    let mut out = Vec::new();
    for _ in 0..len {
        state = state.wrapping_mul(1664525).wrapping_add(1013904223);
        out.push(state >> 3);
    }
    out
}

#[test]
fn scripted_sampler_folds_draws_into_the_range() {
    let mut sampler = ScriptedSampler::new(vec![0, 7, 13, 100]);
    assert_eq!(sampler.remaining(), 4);
    assert_eq!(sampler.sample(0, 10), 0);
    assert_eq!(sampler.sample(5, 8), 6); // 5 + 7 % 3
    assert_eq!(sampler.draw(10, 20), 13); // 10 + 13 % 10
    assert_eq!(sampler.remaining(), 1);
    assert_eq!(sampler.sample(4, 5), 4); // 4 + 100 % 1
    assert_eq!(sampler.remaining(), 0);
}

#[test]
fn scripted_sampler_gives_low_when_used_up() {
    let mut sampler = ScriptedSampler::new(Vec::new());
    assert_eq!(sampler.remaining(), 0);
    assert_eq!(sampler.sample(3, 9), 3);
    assert_eq!(sampler.sample(0, 1), 0);
    assert_eq!(sampler.draw(u32::MAX - 1, u32::MAX), u32::MAX - 1);
    assert_eq!(sampler.remaining(), 0);
}

#[test]
fn scripted_sampler_handles_the_widest_range() {
    let mut sampler = ScriptedSampler::new(vec![u32::MAX, u32::MAX - 1]);
    assert_eq!(sampler.sample(0, u32::MAX), 0); // MAX % MAX
    assert_eq!(sampler.sample(0, u32::MAX), u32::MAX - 1);
}

#[test]
fn thread_sampler_stays_in_range() {
    let mut sampler = ThreadSampler::new();
    let mut seen_other_than_low = false;
    for _ in 0..200 {
        let v = sampler.sample(1000, 1_000_000);
        assert!((1000..1_000_000).contains(&v));
        if v != 1000 {
            seen_other_than_low = true;
        }
        assert_eq!(sampler.sample(17, 18), 17);
    }
    assert!(seen_other_than_low);
}

#[test]
fn select_span_follows_the_script() {
    // x_start from 0..48: 5; x_end from 21..64: 21 + 10 % 43 = 31
    // y_start from 0..48: 47; y_end from 63..64: 63
    let mut sampler = ScriptedSampler::new(vec![5, 10, 47, 1234]);
    let span = select_span(&mut sampler, 64, 64, 16, 16);
    assert_eq!((span.x_start(), span.x_end()), (5, 31));
    assert_eq!((span.y_start(), span.y_end()), (47, 63));
    assert_eq!(span.width(), 26);
    assert_eq!(span.height(), 16);
    assert_eq!(sampler.remaining(), 0);
}

#[test]
fn select_span_draws_columns_before_rows() {
    let mut sampler = ScriptedSampler::new(vec![1, 2, 3, 4]);
    let span = select_span(&mut sampler, 100, 50, 10, 5);
    // x_start = 1 % 90; x_end = 11 + 2 % 89; y_start = 3 % 45; y_end = 8 + 4 % 42
    assert_eq!((span.x_start(), span.x_end()), (1, 13));
    assert_eq!((span.y_start(), span.y_end()), (3, 12));
}

#[test]
fn select_span_on_the_smallest_image() {
    // min + 1 pixels a side: both starts are 0, both ends are min
    let mut sampler = ScriptedSampler::new(vec![9, 9, 9, 9]);
    let span = select_span(&mut sampler, 17, 17, 16, 16);
    assert_eq!((span.x_start(), span.x_end()), (0, 16));
    assert_eq!((span.y_start(), span.y_end()), (0, 16));
}

#[test]
fn select_span_with_minimum_zero_may_be_empty() {
    let mut sampler = ScriptedSampler::new(vec![1, 0, 2, 0]);
    let span = select_span(&mut sampler, 4, 4, 0, 0);
    assert_eq!((span.x_start(), span.x_end()), (1, 1));
    assert_eq!((span.y_start(), span.y_end()), (2, 2));
    assert_eq!(span.width(), 0);
    assert_eq!(span.height(), 0);
}

#[test]
fn select_span_keeps_bounds_and_minimum_for_many_scripts() {
    let sizes = [(64u32, 64u32, 16u32, 16u32), (17, 200, 16, 1), (1000, 3, 999, 2), (2, 2, 1, 1)];
    for seed in 0..200u32 {
        for &(w, h, min_w, min_h) in sizes.iter() {
            let mut sampler = ScriptedSampler::new(script(seed, 4));
            let span = select_span(&mut sampler, w, h, min_w, min_h);
            assert!(span.x_start() < span.x_end());
            assert!(span.x_end() < w);
            assert!(span.y_start() < span.y_end());
            assert!(span.y_end() < h);
            assert!(span.width() >= min_w);
            assert!(span.height() >= min_h);
        }
    }
}

#[test]
fn get_random_span_keeps_bounds_and_minimum() {
    for _ in 0..500 {
        let span = get_random_span(64, 48, 16, 8);
        assert!(span.x_start() < span.x_end());
        assert!(span.x_end() < 64);
        assert!(span.y_start() < span.y_end());
        assert!(span.y_end() < 48);
        assert!(span.width() >= 16);
        assert!(span.height() >= 8);
    }
}

#[test]
fn select_destination_follows_the_script() {
    let span = Span::new(5..31, 47..63).unwrap();
    // dx from 0..38: 40 % 38 = 2; dy from 0..48: 50 % 48 = 2
    let mut sampler = ScriptedSampler::new(vec![40, 50]);
    assert_eq!(select_destination(&mut sampler, 64, 64, &span), (2, 2));
    assert_eq!(sampler.remaining(), 0);
}

#[test]
fn select_destination_of_a_full_width_span_is_zero_without_a_draw() {
    let span = Span::new(0..64, 10..20).unwrap();
    let mut sampler = ScriptedSampler::new(vec![33, 44]);
    // the columns leave nothing to draw from: 33 goes to the rows, 33 % 54
    assert_eq!(select_destination(&mut sampler, 64, 64, &span), (0, 33));
    assert_eq!(sampler.remaining(), 1);
}

#[test]
fn select_destination_of_a_full_size_span_is_the_origin() {
    let span = Span::new(0..8, 0..6).unwrap();
    let mut sampler = ScriptedSampler::new(vec![3, 3]);
    assert_eq!(select_destination(&mut sampler, 8, 6, &span), (0, 0));
    assert_eq!(sampler.remaining(), 2);
    assert_eq!(random_transpose(8, 6, &span), (0, 0));
}

#[test]
fn select_destination_fits_for_many_scripts() {
    for seed in 0..200u32 {
        let mut sampler = ScriptedSampler::new(script(seed, 6));
        let span = select_span(&mut sampler, 64, 40, 16, 4);
        let (dx, dy) = select_destination(&mut sampler, 64, 40, &span);
        assert!(dx + span.width() < 64);
        assert!(dy + span.height() < 40);
    }
}

#[test]
fn random_transpose_fits() {
    let span = Span::new(3..20, 0..39).unwrap();
    for _ in 0..500 {
        let (dx, dy) = random_transpose(64, 40, &span);
        assert!(dx + span.width() <= 64);
        assert!(dy + span.height() <= 40);
        assert_eq!(dy, 0); // one row is left: the only offset in 0..1
    }
}
