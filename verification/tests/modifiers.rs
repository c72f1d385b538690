use pixeledit::GradingMatrix;
use pixeledit::Modifier;
use pixeledit::RasterImage;

fn image_from(width: u32, height: u32, rgba: [u8; 4]) -> RasterImage {
    let mut pixels = Vec::new();
    for _ in 0..(width as usize) * (height as usize) {
        pixels.extend_from_slice(&rgba);
    }
    RasterImage::from_pixels(width, height, pixels).unwrap()
}

fn varied_image() -> RasterImage {
    let mut pixels = Vec::new();
    for i in 0..9u32 {
        pixels.extend_from_slice(&[(i * 17) as u8, (i * 29) as u8, (255 - i * 11) as u8, 255]);
    }
    RasterImage::from_pixels(3, 3, pixels).unwrap()
}

#[test]
fn neutral_identity_all_modifiers() {
    let img = varied_image();
    let all = vec![
        Modifier::exposure(),
        Modifier::contrast(),
        Modifier::gamma(),
        Modifier::blur(),
        Modifier::tint(),
        Modifier::sepia(),
        Modifier::brightness_multiply(),
        Modifier::brightness_multiply_luma(),
        Modifier::color_grading(),
    ];
    for m in all {
        let out = m.apply(img.clone());
        assert_eq!(out.pixels(), img.pixels(), "{} at neutral must not alter pixels", m.title());
        assert_eq!(out.width(), img.width());
        assert_eq!(out.height(), img.height());
    }
}

#[test]
fn zero_percent_identity_trio() {
    let img = varied_image();
    for mut m in [
        Modifier::sepia(),
        Modifier::brightness_multiply_luma(),
        Modifier::color_grading(),
    ] {
        m.set_percent(0);
        let out = m.apply(img.clone());
        assert_eq!(out.pixels(), img.pixels(), "{} at zero percent must be identity", m.title());
    }
}

#[test]
fn exposure_scenario_uniform_red() {
    // A 100x100 uniform image, R=200, G=0, B=0; exposure at +50% adds
    // trunc(50 * 0.6 * 2.55) = 76 to each color channel, clamped.
    let img = image_from(100, 100, [200, 0, 0, 255]);
    let mut m = Modifier::exposure();
    m.set_percent(50_000);
    let out = m.apply(img);
    for p in 0..100 * 100 {
        let px = &out.pixels()[p * 4..p * 4 + 4];
        assert_eq!(px, &[255, 76, 76, 255]);
    }
}

#[test]
fn exposure_clamps_low() {
    let img = image_from(2, 2, [100, 10, 200, 255]);
    let mut m = Modifier::exposure();
    m.set_percent(-100_000);
    let out = m.apply(img);
    assert_eq!(&out.pixels()[0..4], &[0, 0, 47, 255]);
}

#[test]
fn gamma_scenario_mid_gray() {
    // Mid-gray (128,128,128) under gamma percent -1 (exponent 2) lands on
    // 255 * (128/255)^2, about 64.
    let img = image_from(1, 1, [128, 128, 128, 255]);
    let mut m = Modifier::gamma();
    m.set_percent(-1000);
    let out = m.apply(img);
    assert_eq!(out.pixels().as_slice(), &[64, 64, 64, 255]);
}

#[test]
fn gamma_extreme_brightens_to_white() {
    // Exponent 0 (percent = 1) sends every channel to 255.
    let img = image_from(1, 1, [13, 77, 200, 9]);
    let mut m = Modifier::gamma();
    m.set_percent(1000);
    let out = m.apply(img);
    assert_eq!(out.pixels().as_slice(), &[255, 255, 255, 9]);
}

#[test]
fn grading_preset_grayscale_average() {
    // The "Grayscale Average" preset at percent 100 averages the channels:
    // (60 + 120 + 180) / 3 rounds to 120 on every channel.
    let img = image_from(1, 1, [60, 120, 180, 255]);
    let mut m = Modifier::color_grading();
    m.set_grading_matrix(GradingMatrix::grayscale_average());
    m.set_percent(100_000);
    let out = m.apply(img);
    assert_eq!(out.pixels().as_slice(), &[120, 120, 120, 255]);
}

#[test]
fn grading_half_blend() {
    // At percent 50 the matrix is halfway between identity and the preset.
    let img = image_from(1, 1, [200, 0, 0, 255]);
    let mut m = Modifier::color_grading();
    m.set_grading_matrix(GradingMatrix::grayscale_average());
    m.set_percent(50_000);
    let out = m.apply(img);
    // weights for each row: diag (1e8 + (333-1000)*50000) = 66_650_000,
    // off-diag 333*50000 = 16_650_000; red row: 66_650_000*200 -> 133.3+0.5
    // rounds to 133; green/blue rows: 16_650_000*200 -> 33.3 rounds to 33.
    assert_eq!(out.pixels().as_slice(), &[133, 33, 33, 255]);
}

#[test]
fn brightness_multiply_scales() {
    let img = image_from(1, 1, [10, 20, 200, 255]);
    let mut m = Modifier::brightness_multiply();
    m.set_percent(2000);
    let out = m.apply(img);
    assert_eq!(out.pixels().as_slice(), &[20, 40, 255, 255]);
    let img2 = image_from(1, 1, [10, 20, 200, 255]);
    m.set_percent(0);
    let out2 = m.apply(img2);
    assert_eq!(out2.pixels().as_slice(), &[0, 0, 0, 255]);
}

#[test]
fn brightness_multiply_luma_brightens() {
    let img = image_from(1, 1, [100, 100, 100, 255]);
    let mut m = Modifier::brightness_multiply_luma();
    m.set_percent(2000);
    let out = m.apply(img);
    let px = out.pixels();
    // A mid-gray has no chroma, so the luma scale raises every channel by
    // the same amount: y' = y * (1 + 2 * (1 - sqrt(y))) on the normalized
    // luma 100/255 gives about 174.
    assert_eq!(px.as_slice(), &[174, 174, 174, 255]);
}

#[test]
fn brightness_multiply_luma_keeps_chroma() {
    let img = image_from(1, 1, [60, 120, 180, 255]);
    let mut m = Modifier::brightness_multiply_luma();
    m.set_percent(1000);
    let out = m.apply(img);
    assert_eq!(out.pixels().as_slice(), &[97, 157, 217, 255]);
}

#[test]
fn sepia_full_strength() {
    let img = image_from(1, 1, [100, 100, 100, 255]);
    let mut m = Modifier::sepia();
    m.set_percent(100_000);
    let out = m.apply(img);
    // The fixed sepia matrix rows sum to 1.351, 1.203 and 0.937.
    assert_eq!(out.pixels().as_slice(), &[135, 120, 93, 255]);
}

#[test]
fn contrast_pushes_apart() {
    let img = image_from(1, 2, [200, 60, 127, 255]);
    let mut m = Modifier::contrast();
    m.set_percent(100_000);
    let out = m.apply(img);
    let px = out.pixels();
    // Full contrast stretch: factor 1.6^2 = 2.56 around 127.5.
    // 200 -> 127.5 + 72.5*2.56 = 313.1 -> 255; 60 -> 127.5 - 67.5*2.56 < 0 -> 0;
    // 127 -> 127.5 - 0.5*2.56 = 126.22 -> 126.
    assert_eq!(&px[0..4], &[255, 0, 126, 255]);
}

#[test]
fn tint_rotates_hue() {
    let img = image_from(2, 2, [255, 0, 0, 200]);
    let mut m = Modifier::tint();
    m.set_percent(180_000);
    let out = m.apply(img);
    let px = out.pixels();
    assert_ne!(&px[0..3], &[255, 0, 0], "a 180 degree hue rotation must change pure red");
    assert_eq!(px[3], 200, "hue rotation must not touch alpha");
}

#[test]
fn blur_single_pass_two_pixels() {
    // Percent 25 asks for exactly one binomial pass. On a 2x1 image the
    // horizontal pass gives (0 + 0 + 255 + 2)/4 = 64 and
    // (0 + 510 + 255 + 2)/4 = 191; the vertical pass then changes nothing.
    let pixels = vec![0, 0, 0, 255, 255, 255, 255, 255];
    let img = RasterImage::from_pixels(2, 1, pixels).unwrap();
    let mut m = Modifier::blur();
    m.set_percent(25_000);
    let out = m.apply(img);
    assert_eq!(out.pixels().as_slice(), &[64, 64, 64, 255, 191, 191, 191, 255]);
}

#[test]
fn blur_single_pixel_identity() {
    let img = image_from(1, 1, [7, 77, 177, 3]);
    let mut m = Modifier::blur();
    m.set_percent(100_000);
    let out = m.apply(img);
    assert_eq!(out.pixels().as_slice(), &[7, 77, 177, 3]);
}

#[test]
fn set_percent_clamps_to_range() {
    let mut m = Modifier::brightness_multiply();
    m.set_percent(9_999_999);
    assert_eq!(m.percent_milli(), 3000);
    m.set_percent(-5);
    assert_eq!(m.percent_milli(), 0);
    assert_eq!(m.min_milli(), 0);
    assert_eq!(m.max_milli(), 3000);
    assert_eq!(m.neutral_milli(), 1000);
}

#[test]
fn enable_flag_round_trip() {
    let mut m = Modifier::sepia();
    assert!(m.enabled());
    m.set_enabled(false);
    assert!(!m.enabled());
    m.set_enabled(true);
    assert!(m.enabled());
}

#[test]
fn with_thumbnails_builds_previews() {
    let img = image_from(10, 10, [100, 100, 100, 255]);
    let m = Modifier::exposure().with_thumbnails(&img);
    // 20% and 80% of [-100, 100] are -60% and +60%: offsets of -91 and +91.
    let low = m.min_thumbnail().expect("low preview must be built");
    let high = m.max_thumbnail().expect("high preview must be built");
    assert_eq!(low.width(), 10);
    assert_eq!(low.height(), 10);
    assert_eq!(&low.pixels()[0..4], &[9, 9, 9, 255]);
    assert_eq!(&high.pixels()[0..4], &[191, 191, 191, 255]);
    // the modifier itself is left at its default state
    assert_eq!(m.percent_milli(), m.neutral_milli());
}

#[test]
fn with_thumbnails_bounds_large_source() {
    let img = image_from(200, 100, [50, 60, 70, 255]);
    let m = Modifier::sepia().with_thumbnails(&img);
    let low = m.min_thumbnail().expect("low preview must be built");
    assert!(low.width() <= 50 && low.height() <= 50);
}

#[test]
fn luma_gamma_knob_clamps() {
    let mut m = Modifier::brightness_multiply_luma();
    m.set_luma_gamma(9999);
    m.set_percent(1000);
    let img = image_from(1, 1, [100, 100, 100, 255]);
    let out = m.apply(img.clone());
    // gamma knob saturates at 1.5; the same edit with 1500 must agree
    let mut m2 = Modifier::brightness_multiply_luma();
    m2.set_luma_gamma(1500);
    m2.set_percent(1000);
    let out2 = m2.apply(img);
    assert_eq!(out.pixels(), out2.pixels());
}

#[test]
fn grading_matrix_setter_ignored_on_other_kinds() {
    let img = image_from(1, 1, [60, 120, 180, 255]);
    let mut plain = Modifier::exposure();
    plain.set_percent(50_000);
    let mut poked = Modifier::exposure();
    poked.set_grading_matrix(GradingMatrix::grayscale_average());
    poked.set_luma_gamma(1200);
    poked.set_percent(50_000);
    assert_eq!(poked.apply(img.clone()).pixels(), plain.apply(img).pixels());
}
