use camoufler::canvas::Canvas;
use camoufler::smudge::{smudge_channel, smudge_image};

fn canvas_of(width: u32, height: u32, samples: Vec<u8>) -> Canvas {
    match Canvas::from_samples(width, height, samples) {
        Some(canvas) => canvas,
        None => panic!("the samples do not cover the grid"),
    }
}

fn gradient(width: u32, height: u32) -> Vec<u8> {
    let mut samples = Vec::new();
    let mut next: u32 = 7;
    for _ in 0..(width * height * 4) {
        samples.push((next % 256) as u8);
        next = next * 31 + 11;
        next %= 65521;
    }
    samples
}

#[test]
fn channel_moves_up_when_lightening() {
    assert_eq!(smudge_channel(100, 5, false, 3), 115);
    assert_eq!(smudge_channel(0, 7, false, 6), 42);
}

#[test]
fn channel_moves_down_when_darkening() {
    assert_eq!(smudge_channel(100, 5, true, 3), 85);
    assert_eq!(smudge_channel(255, 10, true, 9), 165);
}

#[test]
fn channel_saturates_at_both_ends() {
    assert_eq!(smudge_channel(250, 10, false, 9), 255);
    assert_eq!(smudge_channel(5, 10, true, 9), 0);
    assert_eq!(smudge_channel(255, 255, false, 254), 255);
    assert_eq!(smudge_channel(0, 255, true, 254), 0);
    assert_eq!(smudge_channel(1, 1, true, 1), 0);
    assert_eq!(smudge_channel(254, 1, false, 1), 255);
}

#[test]
fn channel_stays_with_a_zero_draw_or_weight() {
    for colour in 0..=255u8 {
        assert_eq!(smudge_channel(colour, 9, false, 0), colour);
        assert_eq!(smudge_channel(colour, 9, true, 0), colour);
        assert_eq!(smudge_channel(colour, 0, false, 200), colour);
        assert_eq!(smudge_channel(colour, 0, true, 200), colour);
    }
}

#[test]
fn channel_follows_the_formula_everywhere() {
    for colour in [0u8, 1, 17, 128, 254, 255] {
        for weight in [0u8, 1, 2, 10, 16, 255] {
            for draw in [0u8, 1, 3, 9, 15, 254, 255] {
                let step = weight as i64 * draw as i64;
                let up = (colour as i64 + step).clamp(0, 255) as u8;
                let down = (colour as i64 - step).clamp(0, 255) as u8;
                assert_eq!(smudge_channel(colour, weight, false, draw), up);
                assert_eq!(smudge_channel(colour, weight, true, draw), down);
                assert!(up >= colour);
                assert!(down <= colour);
            }
        }
    }
}

#[test]
fn white_pixel_darkens_within_reach() {
    for _ in 0..200 {
        let mut canvas = canvas_of(1, 1, vec![255, 255, 255, 255]);
        smudge_image(&mut canvas, &10, &true);
        assert_eq!(canvas.width(), 1);
        assert_eq!(canvas.height(), 1);
        let samples = canvas.into_samples();
        assert_eq!(samples.len(), 4);
        assert!(samples[0] >= 155);
        assert!(samples[1] >= 155);
        assert!(samples[0] >= 165);
        assert!(samples[1] >= 165);
        assert_eq!((255 - samples[0]) % 10, 0);
        assert_eq!((255 - samples[1]) % 10, 0);
        assert_eq!(samples[2], 255);
        assert_eq!(samples[3], 255);
    }
}

#[test]
fn zero_weight_changes_nothing() {
    let before = gradient(5, 3);
    let mut canvas = canvas_of(5, 3, before.clone());
    smudge_image(&mut canvas, &0, &false);
    assert_eq!(canvas.width(), 5);
    assert_eq!(canvas.height(), 3);
    assert_eq!(canvas.into_samples(), before);
    let mut canvas = canvas_of(5, 3, before.clone());
    smudge_image(&mut canvas, &0, &true);
    assert_eq!(canvas.into_samples(), before);
}

#[test]
fn unit_weight_changes_nothing() {
    let before = gradient(4, 6);
    let mut canvas = canvas_of(4, 6, before.clone());
    smudge_image(&mut canvas, &1, &false);
    assert_eq!(canvas.into_samples(), before);
    let mut canvas = canvas_of(4, 6, before.clone());
    smudge_image(&mut canvas, &1, &true);
    assert_eq!(canvas.into_samples(), before);
}

#[test]
fn lightening_never_lowers_a_channel() {
    let before = gradient(6, 5);
    let mut current = before.clone();
    for _ in 0..20 {
        let mut canvas = canvas_of(6, 5, current.clone());
        smudge_image(&mut canvas, &4, &false);
        let after = canvas.into_samples();
        assert_eq!(after.len(), current.len());
        for i in 0..after.len() {
            assert!(after[i] >= current[i]);
            assert!(after[i] as i32 - current[i] as i32 <= 12);
            assert!(after[i] >= before[i]);
        }
        current = after;
    }
}

#[test]
fn darkening_never_raises_a_channel() {
    let before = gradient(6, 5);
    let mut current = before.clone();
    for _ in 0..20 {
        let mut canvas = canvas_of(6, 5, current.clone());
        smudge_image(&mut canvas, &4, &true);
        let after = canvas.into_samples();
        assert_eq!(after.len(), current.len());
        for i in 0..after.len() {
            assert!(after[i] <= current[i]);
            assert!(current[i] as i32 - after[i] as i32 <= 12);
            assert!(after[i] <= before[i]);
        }
        current = after;
    }
}

#[test]
fn blue_and_alpha_are_left_alone() {
    let before = gradient(7, 7);
    let mut canvas = canvas_of(7, 7, before.clone());
    smudge_image(&mut canvas, &200, &true);
    let after = canvas.into_samples();
    for i in 0..after.len() {
        if i % 4 >= 2 {
            assert_eq!(after[i], before[i]);
        }
    }
}

#[test]
fn red_and_green_are_smudged_in_every_pixel() {
    let width = 10;
    let height = 10;
    let before = vec![0u8; 400];
    let mut canvas = canvas_of(width, height, before.clone());
    smudge_image(&mut canvas, &255, &false);
    let after = canvas.into_samples();
    let mut moved = 0;
    for i in 0..after.len() {
        if i % 4 < 2 {
            assert!(after[i] == 0 || after[i] == 255);
            if after[i] == 255 {
                moved += 1;
            }
        } else {
            assert_eq!(after[i], 0);
        }
    }
    assert!(moved > 100);
}

#[test]
fn draws_stay_below_the_weight() {
    let before = vec![100u8; 4 * 64];
    let mut seen_low = false;
    let mut seen_high = false;
    for _ in 0..20 {
        let mut canvas = canvas_of(8, 8, before.clone());
        smudge_image(&mut canvas, &2, &false);
        let after = canvas.into_samples();
        for i in 0..after.len() {
            if i % 4 < 2 {
                assert!(after[i] == 100 || after[i] == 102);
                seen_low |= after[i] == 100;
                seen_high |= after[i] == 102;
            } else {
                assert_eq!(after[i], 100);
            }
        }
    }
    assert!(seen_low);
    assert!(seen_high);
}

#[test]
fn samples_behind_the_grid_are_kept() {
    let mut before = vec![0u8; 4 * 4];
    before.extend_from_slice(&[9, 8, 7, 6, 5]);
    let mut canvas = canvas_of(2, 2, before.clone());
    smudge_image(&mut canvas, &255, &false);
    let after = canvas.into_samples();
    assert_eq!(after.len(), before.len());
    assert_eq!(&after[16..], &[9, 8, 7, 6, 5]);
}

#[test]
fn empty_grids_are_smudged_to_themselves() {
    let mut canvas = canvas_of(0, 0, Vec::new());
    smudge_image(&mut canvas, &9, &true);
    assert_eq!(canvas.into_samples(), Vec::<u8>::new());
    let mut canvas = canvas_of(0, 5, vec![1, 2, 3]);
    smudge_image(&mut canvas, &9, &true);
    assert_eq!(canvas.into_samples(), vec![1, 2, 3]);
    let mut canvas = canvas_of(5, 0, vec![1, 2, 3]);
    smudge_image(&mut canvas, &9, &false);
    assert_eq!(canvas.into_samples(), vec![1, 2, 3]);
}

#[test]
fn canvas_needs_samples_for_every_pixel() {
    assert!(Canvas::from_samples(2, 2, vec![0; 15]).is_none());
    assert!(Canvas::from_samples(2, 2, vec![0; 16]).is_some());
    assert!(Canvas::from_samples(2, 2, vec![0; 17]).is_some());
    assert!(Canvas::from_samples(1, 1, Vec::new()).is_none());
    assert!(Canvas::from_samples(0, 0, Vec::new()).is_some());
    assert!(Canvas::from_samples(u32::MAX, u32::MAX, vec![0; 64]).is_none());
}

#[test]
fn canvas_keeps_dimensions_and_samples() {
    let samples = gradient(3, 2);
    let canvas = canvas_of(3, 2, samples.clone());
    assert_eq!(canvas.width(), 3);
    assert_eq!(canvas.height(), 2);
    assert_eq!(canvas.into_samples(), samples);
}

#[test]
fn canvas_lays_pixels_out_as_the_image_crate_does() {
    let mut image = image::RgbaImage::new(3, 2);
    for y in 0..2u32 {
        for x in 0..3u32 {
            let base = (10 * (y * 3 + x)) as u8;
            image.put_pixel(x, y, image::Rgba([base, base + 1, base + 2, base + 3]));
        }
    }
    let mut canvas = canvas_of(3, 2, image.into_raw());
    smudge_image(&mut canvas, &1, &true);
    let width = canvas.width();
    let height = canvas.height();
    let after = match image::RgbaImage::from_raw(width, height, canvas.into_samples()) {
        Some(image) => image,
        None => panic!("the samples do not cover the grid"),
    };
    for y in 0..2u32 {
        for x in 0..3u32 {
            let base = (10 * (y * 3 + x)) as u8;
            assert_eq!(after.get_pixel(x, y).0, [base, base + 1, base + 2, base + 3]);
        }
    }
}
