use chunk_glitch::compositor::{render, Compositor, ConfigError, Phase};
use chunk_glitch::image_buf::{ImageBuf, Pixel, Span};
use chunk_glitch::sampler::{ScriptedSampler, ThreadSampler};

fn checkerboard(width: u32, height: u32) -> ImageBuf {
    let mut bytes = Vec::new();
    for y in 0..height {
        for x in 0..width {
            let on = (x / 4 + y / 4) % 2 == 0;
            bytes.push(if on { 255 } else { 0 });
            bytes.push((x * 3) as u8);
            bytes.push((y * 3) as u8);
        }
    }
    ImageBuf::from_raw(width, height, bytes).unwrap()
}

fn solid(width: u32, height: u32) -> ImageBuf {
    let mut bytes = Vec::new();
    for _ in 0..width * height {
        bytes.extend_from_slice(&[10, 20, 30]);
    }
    ImageBuf::from_raw(width, height, bytes).unwrap()
}

fn pixel_of(frame: &[u8], width: u32, x: u32, y: u32) -> Pixel {
    let at = 3 * (width * y + x) as usize;
    Pixel { r: frame[at], g: frame[at + 1], b: frame[at + 2] }
}

#[test]
fn new_rejects_a_minimum_width_that_is_not_below_the_image() {
    assert_eq!(
        Compositor::new(solid(16, 64), 1, false, 16, 16).err(),
        Some(ConfigError::ChunkTooWide)
    );
    assert_eq!(
        Compositor::new(solid(16, 16), 0, false, 20, 20).err(),
        Some(ConfigError::ChunkTooWide)
    );
}

#[test]
fn new_rejects_a_minimum_height_that_is_not_below_the_image() {
    assert_eq!(
        Compositor::new(solid(64, 16), 1, true, 16, 16).err(),
        Some(ConfigError::ChunkTooTall)
    );
    assert_eq!(
        Compositor::new(solid(64, 3), 1, true, 0, 3).err(),
        Some(ConfigError::ChunkTooTall)
    );
}

#[test]
fn new_rejects_empty_images() {
    let empty = ImageBuf::from_raw(0, 0, Vec::new()).unwrap();
    assert_eq!(Compositor::new(empty, 3, false, 0, 0).err(), Some(ConfigError::ChunkTooWide));
}

#[test]
fn new_starts_with_the_image_as_frame() {
    let image = checkerboard(20, 18);
    let compositor = Compositor::new(image.clone(), 4, false, 16, 16).unwrap();
    assert_eq!(compositor.phase(), Phase::Initializing);
    assert_eq!(compositor.num_iterations(), 4);
    assert_eq!(compositor.frame(), image.as_slice());
    assert_eq!(compositor.work().as_slice(), image.as_slice());
    assert_eq!(compositor.source().as_slice(), image.as_slice());
}

#[test]
fn zero_iterations_finalize_at_once() {
    let image = checkerboard(32, 32);
    let mut compositor = Compositor::new(image.clone(), 0, false, 16, 16).unwrap();
    let mut sampler = ThreadSampler::new();
    assert!(compositor.advance(&mut sampler).is_none());
    assert_eq!(compositor.phase(), Phase::Finalized);
    assert_eq!(compositor.frame(), image.as_slice());
    assert!(compositor.advance(&mut sampler).is_none());
    assert_eq!(compositor.phase(), Phase::Finalized);
}

#[test]
fn zero_iterations_render_one_frame_equal_to_the_image() {
    let image = checkerboard(32, 32);
    let frames = render(image.clone(), 0, true, 16, 16, &mut ThreadSampler::new()).unwrap();
    assert_eq!(frames.len(), 1);
    assert_eq!(frames[0].as_slice(), image.as_slice());
}

#[test]
fn n_iterations_render_n_plus_one_frames() {
    for n in [1u32, 2, 5, 17] {
        for recursive in [false, true] {
            let image = checkerboard(40, 24);
            let frames = render(image.clone(), n, recursive, 8, 8, &mut ThreadSampler::new()).unwrap();
            assert_eq!(frames.len(), n as usize + 1);
            assert_eq!(frames[0].as_slice(), image.as_slice());
            for frame in frames.iter() {
                assert_eq!(frame.len(), 40 * 24 * 3);
            }
        }
    }
}

#[test]
fn render_reports_configuration_errors() {
    assert_eq!(
        render(solid(8, 8), 3, false, 8, 1, &mut ThreadSampler::new()).err(),
        Some(ConfigError::ChunkTooWide)
    );
    assert_eq!(
        render(solid(8, 8), 3, false, 1, 8, &mut ThreadSampler::new()).err(),
        Some(ConfigError::ChunkTooTall)
    );
}

#[test]
fn advance_runs_each_iteration_once_and_then_finalizes() {
    let mut compositor = Compositor::new(checkerboard(64, 64), 5, false, 16, 16).unwrap();
    let mut sampler = ThreadSampler::new();
    for i in 1..=5u32 {
        let chunk = compositor.advance(&mut sampler).unwrap();
        assert_eq!(chunk.index, i);
        assert_eq!(compositor.phase(), Phase::Iterating(i));
    }
    assert!(compositor.advance(&mut sampler).is_none());
    assert_eq!(compositor.phase(), Phase::Finalized);
    assert!(compositor.advance(&mut sampler).is_none());
}

#[test]
fn solid_image_64_by_64_gives_six_identical_frames() {
    let image = solid(64, 64);
    let frames = render(image.clone(), 5, false, 16, 16, &mut ThreadSampler::new()).unwrap();
    assert_eq!(frames.len(), 6);
    for frame in frames.iter() {
        assert_eq!(frame.as_slice(), image.as_slice());
    }
}

#[test]
fn checkerboard_frames_change_in_one_rectangle_each() {
    let image = checkerboard(64, 64);
    let mut compositor = Compositor::new(image.clone(), 5, false, 16, 16).unwrap();
    let mut sampler = ThreadSampler::new();
    let mut frames = vec![compositor.frame().to_vec()];
    while let Some(chunk) = compositor.advance(&mut sampler) {
        let frame = compositor.frame().to_vec();
        let prev = frames.last().unwrap();
        let (dx, dy) = chunk.to;
        assert!(chunk.region.width() >= 16 && chunk.region.height() >= 16);
        assert!(chunk.region.x_end() < 64 && chunk.region.y_end() < 64);
        assert!(dx + chunk.region.width() < 64 && dy + chunk.region.height() < 64);
        for y in 0..64u32 {
            for x in 0..64u32 {
                let inside = x >= dx
                    && x < dx + chunk.region.width()
                    && y >= dy
                    && y < dy + chunk.region.height();
                if inside {
                    let from = image.get_pixel(
                        x - dx + chunk.region.x_start(),
                        y - dy + chunk.region.y_start(),
                    );
                    assert_eq!(pixel_of(&frame, 64, x, y), from);
                } else {
                    assert_eq!(pixel_of(&frame, 64, x, y), pixel_of(prev, 64, x, y));
                }
            }
        }
        frames.push(frame);
    }
    assert_eq!(frames.len(), 6);
    assert_eq!(frames[0].as_slice(), image.as_slice());
    assert_eq!(compositor.source().as_slice(), image.as_slice());
}

#[test]
fn scripted_run_gives_exact_frames() {
    // 4 x 4 pixels, pixel (x, y) holds (x, y, 0); minimum chunk 1 x 1.
    let mut bytes = Vec::new();
    for y in 0..4u8 {
        for x in 0..4u8 {
            bytes.extend_from_slice(&[x, y, 0]);
        }
    }
    let image = ImageBuf::from_raw(4, 4, bytes).unwrap();
    // region: x_start = 2 % 3 = 2, x_end = 3 + 0 % 1 = 3, y_start = 0, y_end = 1 + 1 % 3 = 2
    // place: dx = 0 % 3 = 0, dy = 5 % 2 = 1
    let mut sampler = ScriptedSampler::new(vec![2, 0, 0, 1, 0, 5]);
    let mut compositor = Compositor::new(image.clone(), 1, false, 1, 1).unwrap();
    let chunk = compositor.advance(&mut sampler).unwrap();
    assert_eq!(chunk.index, 1);
    assert_eq!((chunk.region.x_start(), chunk.region.x_end()), (2, 3));
    assert_eq!((chunk.region.y_start(), chunk.region.y_end()), (0, 2));
    assert_eq!(chunk.to, (0, 1));
    let frame = compositor.frame();
    for y in 0..4u32 {
        for x in 0..4u32 {
            let expected = if x == 0 && (y == 1 || y == 2) {
                Pixel { r: 2, g: (y - 1) as u8, b: 0 }
            } else {
                Pixel { r: x as u8, g: y as u8, b: 0 }
            };
            assert_eq!(pixel_of(frame, 4, x, y), expected);
        }
    }
    assert!(compositor.advance(&mut sampler).is_none());
}

#[test]
fn plain_mode_reads_every_region_from_the_image() {
    let image = checkerboard(32, 32);
    let mut compositor = Compositor::new(image.clone(), 8, false, 4, 4).unwrap();
    let mut sampler = ThreadSampler::new();
    while compositor.advance(&mut sampler).is_some() {
        assert_eq!(compositor.source().as_slice(), image.as_slice());
        assert_eq!(compositor.source().width(), 32);
        assert_eq!(compositor.work().width(), 32);
        assert_eq!(compositor.work().height(), 32);
    }
}

#[test]
fn recursive_mode_reads_every_region_from_the_previous_frame() {
    let image = checkerboard(32, 32);
    let mut compositor = Compositor::new(image.clone(), 8, true, 4, 4).unwrap();
    let mut sampler = ThreadSampler::new();
    let mut prev = ImageBuf::from_raw(32, 32, compositor.frame().to_vec()).unwrap();
    while let Some(chunk) = compositor.advance(&mut sampler) {
        let mut expected = prev.clone();
        expected.copy_chunk(&prev, &chunk.region, chunk.to);
        assert_eq!(compositor.frame(), expected.as_slice());
        assert_eq!(compositor.source().as_slice(), compositor.frame());
        prev = expected;
    }
    assert_eq!(compositor.phase(), Phase::Finalized);
}

#[test]
fn recursive_and_plain_mode_differ_on_a_second_copy() {
    // 4 x 1 pixels a b c d. First copy column 0 to column 1, then column 1 to column 2.
    let image = ImageBuf::from_raw(4, 1, vec![1, 1, 1, 2, 2, 2, 3, 3, 3, 4, 4, 4]).unwrap();
    let first = Span::new(0..1, 0..1).unwrap();
    let second = Span::new(1..2, 0..1).unwrap();

    let mut plain = Compositor::new(image.clone(), 2, false, 0, 0).unwrap();
    assert_eq!(plain.iterate(&first, (1, 0)), 1);
    assert_eq!(plain.iterate(&second, (2, 0)), 2);
    assert_eq!(plain.frame(), &[1u8, 1, 1, 1, 1, 1, 2, 2, 2, 4, 4, 4][..]);
    assert_eq!(plain.phase(), Phase::Iterating(2));

    let mut recursive = Compositor::new(image, 2, true, 0, 0).unwrap();
    assert_eq!(recursive.iterate(&first, (1, 0)), 1);
    assert_eq!(recursive.iterate(&second, (2, 0)), 2);
    assert_eq!(recursive.frame(), &[1u8, 1, 1, 1, 1, 1, 1, 1, 1, 4, 4, 4][..]);
    assert_eq!(recursive.source().as_slice(), recursive.frame());
}
