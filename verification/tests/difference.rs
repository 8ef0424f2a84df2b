use motion_pipeline::difference::{
    channel_difference, color_difference, diff, difference_raster, motion_statistic, DiffError,
};
use motion_pipeline::raster::{Raster, Rgb};
use motion_pipeline::statistic::Statistic;

fn gray(level: u8) -> Rgb {
    Rgb { red: level, green: level, blue: level }
}

fn patterned(width: u32, height: u32, seed: u32) -> Raster {
    let count = (width * height * 3) as usize;
    let mut samples = Vec::with_capacity(count);
    let mut state = seed;
    for _ in 0..count {
        state = state.wrapping_mul(1_103_515_245).wrapping_add(12_345);
        samples.push((state >> 16) as u8);
    }
    Raster::from_raw(width, height, samples).unwrap()
}

#[test]
fn equal_rasters_show_no_motion() {
    let first = patterned(17, 9, 7);
    let second = patterned(17, 9, 7);
    let (image, statistic) = diff(&first, &second).unwrap();
    assert_eq!(statistic, Statistic { numerator: 0 });
    assert_eq!(image.width(), 17);
    assert_eq!(image.height(), 9);
    assert!(image.as_raw().iter().all(|sample| *sample == 0));
}

#[test]
fn every_channel_delta_follows_the_noise_floor_and_the_amplification() {
    for a in 0u8..=255 {
        for b in 0u8..=255 {
            let distance = a.abs_diff(b);
            let (visual, delta) = channel_difference(a, b);
            if distance < 30 {
                assert_eq!((visual, delta), (0, 0));
            } else {
                assert_eq!(delta, distance);
                assert_eq!(visual as u32, (distance as u32 * 3).min(255));
            }
        }
    }
}

#[test]
fn delta_of_29_is_suppressed_and_30_passes() {
    assert_eq!(channel_difference(129, 100), (0, 0));
    assert_eq!(channel_difference(100, 129), (0, 0));
    assert_eq!(channel_difference(130, 100), (90, 30));
    assert_eq!(channel_difference(100, 130), (90, 30));
    let base = gray(50);
    let (pixel, weight) = color_difference(Rgb { red: 79, green: 50, blue: 50 }, base);
    assert_eq!(pixel, gray(0));
    assert_eq!(weight, 0);
    let (pixel, weight) = color_difference(Rgb { red: 80, green: 50, blue: 50 }, base);
    assert_eq!(pixel, Rgb { red: 90, green: 0, blue: 0 });
    assert_eq!(weight, 30 << 16);
}

#[test]
fn amplification_saturates_at_255() {
    assert_eq!(channel_difference(85, 0), (255, 85));
    assert_eq!(channel_difference(84, 0), (252, 84));
    assert_eq!(channel_difference(86, 0), (255, 86));
    assert_eq!(channel_difference(0, 255), (255, 255));
}

#[test]
fn channels_are_weighted_red_first() {
    let (pixel, weight) = color_difference(
        Rgb { red: 40, green: 50, blue: 60 },
        Rgb { red: 0, green: 0, blue: 0 },
    );
    assert_eq!(pixel, Rgb { red: 120, green: 150, blue: 180 });
    assert_eq!(weight, (40 << 16) + (50 << 8) + 60);
    let (_, weight) = color_difference(gray(255), gray(0));
    assert_eq!(weight, 0xFF_FFFF);
}

#[test]
fn blue_shift_of_35_on_a_two_by_two_raster() {
    let before = Raster::filled(2, 2, gray(100)).unwrap();
    let after = Raster::filled(2, 2, Rgb { red: 100, green: 100, blue: 135 }).unwrap();
    let (image, statistic) = diff(&after, &before).unwrap();
    for y in 0..2 {
        for x in 0..2 {
            assert_eq!(image.get_pixel(x, y), Rgb { red: 0, green: 0, blue: 105 });
        }
    }
    assert_eq!(statistic.numerator, 420);
    assert_eq!(statistic.numerator as f64 / 4_294_967_296.0, 420.0 / 4_294_967_296.0);
}

#[test]
fn a_pixel_weighs_by_its_column_and_the_height_not_by_its_row() {
    let before = Raster::new(3, 2).unwrap();
    let mut expected = Vec::new();
    for (x, y) in [(2u32, 0u32), (2, 1)] {
        let mut samples = vec![0u8; 18];
        samples[((y * 3 + x) * 3) as usize] = 40;
        let after = Raster::from_raw(3, 2, samples).unwrap();
        let (image, statistic) = diff(&after, &before).unwrap();
        assert_eq!(image.get_pixel(x, y), Rgb { red: 120, green: 0, blue: 0 });
        expected.push(statistic.numerator);
    }
    assert_eq!(expected, vec![20_971_520, 20_971_520]);
    let mut samples = vec![0u8; 18];
    samples[0] = 40;
    let after = Raster::from_raw(3, 2, samples).unwrap();
    let (_, statistic) = diff(&after, &before).unwrap();
    assert_eq!(statistic.numerator, (40 << 16) * 2);
}

#[test]
fn the_statistic_is_the_sum_modulo_two_to_the_32() {
    let black = Raster::new(64, 64).unwrap();
    let white = Raster::filled(64, 64, gray(255)).unwrap();
    let (image, statistic) = diff(&white, &black).unwrap();
    assert!(image.as_raw().iter().all(|sample| *sample == 255));
    assert_eq!(statistic.numerator, 4_286_447_616);
}

#[test]
fn the_statistic_survives_a_sum_beyond_64_bits() {
    let black = Raster::new(2000, 1500).unwrap();
    let white = Raster::filled(2000, 1500, gray(255)).unwrap();
    assert_eq!(motion_statistic(&white, &black).numerator, 2_864_279_808);
}

#[test]
fn the_statistic_is_below_one() {
    let first = patterned(40, 30, 1);
    let second = patterned(40, 30, 2);
    let (_, statistic) = diff(&first, &second).unwrap();
    let value = statistic.numerator as f64 / 4_294_967_296.0;
    assert!((0.0..1.0).contains(&value));
    assert!((u32::MAX as f64) / 4_294_967_296.0 < 1.0);
}

#[test]
fn the_difference_image_is_made_pixel_by_pixel() {
    let first = patterned(5, 4, 11);
    let second = patterned(5, 4, 12);
    let image = difference_raster(&first, &second);
    for y in 0..4 {
        for x in 0..5 {
            let (pixel, _) = color_difference(first.get_pixel(x, y), second.get_pixel(x, y));
            assert_eq!(image.get_pixel(x, y), pixel);
        }
    }
}

#[test]
fn the_statistic_does_not_depend_on_which_frame_is_newer() {
    let first = patterned(6, 6, 21);
    let second = patterned(6, 6, 22);
    assert_eq!(motion_statistic(&first, &second), motion_statistic(&second, &first));
}

#[test]
fn rasters_of_different_size_are_not_compared() {
    let small = Raster::new(2, 3).unwrap();
    let wide = Raster::new(3, 3).unwrap();
    let tall = Raster::new(2, 4).unwrap();
    let turned = Raster::new(3, 2).unwrap();
    assert_eq!(diff(&small, &wide).err(), Some(DiffError::DimensionMismatch));
    assert_eq!(diff(&small, &tall).err(), Some(DiffError::DimensionMismatch));
    assert_eq!(diff(&small, &turned).err(), Some(DiffError::DimensionMismatch));
    assert!(diff(&small, &small).is_ok());
}

#[test]
fn empty_rasters_show_no_motion() {
    let first = Raster::new(0, 5).unwrap();
    let second = Raster::new(0, 5).unwrap();
    let (image, statistic) = diff(&first, &second).unwrap();
    assert_eq!(statistic.numerator, 0);
    assert!(image.as_raw().is_empty());
}
