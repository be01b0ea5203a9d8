use pxtally::tally::{bin_pixel_counts, ColorTally};

use image::{Rgb, RgbImage};

/// The 2x3 image of the counting tests: row `r` has red `20 * r`, column
/// `b` has blue `30 * b`.
fn case_rgb_image() -> RgbImage {
    let mut image = RgbImage::new(2, 3);
    for index_r in 0..3 {
        let r = 20 * index_r as u8;
        for index_b in 0..2 {
            let b = 30 * index_b as u8;

            let pixel = Rgb::from([r, 0, b]);
            image.put_pixel(index_b, index_r, pixel);
        }
    }

    image
}

/// Bins of width 25.5 over [0, 255], the last one closed.
fn bin_of(value: f32) -> Option<usize> {
    let width = 255.0f32 / 10.0;
    (0..10).position(|i| {
        let start = width * i as f32;
        let end = if i == 9 { 255.0f32.next_up() } else { width * (i + 1) as f32 };
        (start..end).contains(&value)
    })
}

#[test]
fn tally_checking_value() {
    let case = case_rgb_image();
    let tally = ColorTally::from_rgb_bytes(case.as_raw());
    assert_eq!(tally.len(), 6);
    for i in 0..tally.len() {
        assert_eq!(tally.count(i), 1);
    }
    assert_eq!(tally.color(0), (0, 0, 0));
    assert_eq!(tally.color(1), (0, 0, 30));
    assert_eq!(tally.color(5), (40, 0, 30));

    // Every colour passes: the blue component is tallied.
    let choices: Vec<Option<usize>> = (0..tally.len()).map(|i| bin_of(tally.color(i).2 as f32)).collect();
    let (bins, total) = bin_pixel_counts(&tally, &choices, 10);
    let total_value: f64 = (0..tally.len())
        .filter(|i| choices[*i].is_some())
        .map(|i| tally.color(i).2 as f64 * tally.count(i) as f64)
        .sum();
    assert_eq!(total_value / total as f64, 15.0);
    assert_eq!(bins[bin_of(0.0).unwrap()], 3);
    assert_eq!(bins[bin_of(30.0).unwrap()], 3);
    assert_eq!(bins.iter().sum::<u128>(), 6);
    assert_eq!(total, 6);

    // Only the colours with red in [0, 20] pass.
    let choices: Vec<Option<usize>> = (0..tally.len())
        .map(|i| {
            let c = tally.color(i);
            if (0.0..20.0f32.next_up()).contains(&(c.0 as f32)) {
                bin_of(c.2 as f32)
            } else {
                None
            }
        })
        .collect();
    let (bins, total) = bin_pixel_counts(&tally, &choices, 10);
    assert_eq!(bins[bin_of(0.0).unwrap()], 2);
    assert_eq!(bins[bin_of(30.0).unwrap()], 2);
    assert_eq!(bins.iter().sum::<u128>(), 4);
    assert_eq!(total, 4);
}

#[test]
fn tally_counts_repeated_colours() {
    let raw = vec![1, 2, 3, 9, 9, 9, 1, 2, 3, 1, 2, 3, 0, 0, 0];
    let tally = ColorTally::from_rgb_bytes(&raw);
    assert_eq!(tally.len(), 3);
    assert_eq!((tally.color(0), tally.count(0)), ((1, 2, 3), 3));
    assert_eq!((tally.color(1), tally.count(1)), ((9, 9, 9), 1));
    assert_eq!((tally.color(2), tally.count(2)), ((0, 0, 0), 1));
}

#[test]
fn tally_of_empty_image() {
    let tally = ColorTally::from_rgb_bytes(&[]);
    assert_eq!(tally.len(), 0);
    let (bins, total) = bin_pixel_counts(&tally, &[], 4);
    assert_eq!(bins, vec![0, 0, 0, 0]);
    assert_eq!(total, 0);
}

#[test]
fn bins_conserve_pixels() {
    let raw = vec![5, 5, 5, 5, 5, 5, 6, 6, 6, 7, 7, 7, 7, 7, 7, 7, 7, 7];
    let tally = ColorTally::from_rgb_bytes(&raw);
    assert_eq!(tally.len(), 3);
    let (bins, total) = bin_pixel_counts(&tally, &[Some(1), None, Some(1)], 2);
    assert_eq!(bins, vec![0, 5]);
    assert_eq!(total, 5);
    assert!(total <= 6);
}
