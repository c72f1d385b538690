use pixeledit::FilterKind;
use pixeledit::Modifier;
use pixeledit::ModifierPipeline;
use pixeledit::RasterImage;
use pixeledit::Size;

fn gradient_image(width: u32, height: u32) -> RasterImage {
    let mut pixels = Vec::new();
    for y in 0..height {
        for x in 0..width {
            pixels.extend_from_slice(&[
                (x * 7 % 256) as u8,
                (y * 13 % 256) as u8,
                ((x + y) * 3 % 256) as u8,
                255,
            ]);
        }
    }
    RasterImage::from_pixels(width, height, pixels).unwrap()
}

#[test]
fn zero_modifiers_current_equals_base_equals_resized_original() {
    let original = gradient_image(10, 10);
    let expected = original.resize(5, 5, FilterKind::Nearest);
    let mut p = ModifierPipeline::new(original, Size::new(5, 5));
    p.reevaluate();
    assert_eq!(p.current_image().pixels(), p.base_image().pixels());
    assert_eq!(p.current_image().width(), p.base_image().width());
    assert_eq!(p.current_image().pixels(), expected.pixels());
    assert_eq!(p.current_image().width(), expected.width());
    assert_eq!(p.current_image().height(), expected.height());
}

#[test]
fn accessors_fall_back_to_original() {
    let original = gradient_image(4, 4);
    let copy = original.clone();
    let p = ModifierPipeline::new(original, Size::new(4, 4));
    assert_eq!(p.current_image().pixels(), copy.pixels());
    assert_eq!(p.base_image().pixels(), copy.pixels());
    assert_eq!(p.original_image().pixels(), copy.pixels());
}

#[test]
fn resize_within_threshold_keeps_caches() {
    let original = gradient_image(100, 100);
    let mut p = ModifierPipeline::new(original, Size::new(50, 50));
    p.reevaluate();
    let base_before = p.base_image().pixels().clone();
    let current_before = p.current_image().pixels().clone();
    // 52 is within 10% of the displayed width 50: caches must be untouched.
    p.resize(Size::new(52, 52));
    assert_eq!(p.preview_size(), Size::new(52, 52));
    assert_eq!(p.base_image().pixels(), &base_before);
    assert_eq!(p.current_image().pixels(), &current_before);
    assert_eq!(p.current_image().width(), 50);
}

#[test]
fn resize_beyond_threshold_recomputes() {
    let original = gradient_image(100, 100);
    let mut p = ModifierPipeline::new(original, Size::new(50, 50));
    p.reevaluate();
    // 80 is 60% away from the displayed width 50: a full recompute.
    p.resize(Size::new(80, 80));
    assert_eq!(p.current_image().width(), 80);
    assert_eq!(p.base_image().width(), 80);
}

#[test]
fn resize_to_same_size_is_noop() {
    let original = gradient_image(100, 100);
    let mut p = ModifierPipeline::new(original, Size::new(50, 50));
    p.resize(Size::new(50, 50));
    // no recompute was triggered: the caches were never built
    assert_eq!(p.current_image().width(), 100);
}

#[test]
fn reevaluate_folds_enabled_modifiers_in_order() {
    let original = gradient_image(8, 8);
    let mut p = ModifierPipeline::new(original, Size::new(8, 8));
    let mut exposure = Modifier::exposure();
    exposure.set_percent(50_000);
    let mut bmul = Modifier::brightness_multiply();
    bmul.set_percent(2000);
    p.push_modifier(exposure);
    p.push_modifier(bmul);
    p.reevaluate();

    let mut exposure2 = Modifier::exposure();
    exposure2.set_percent(50_000);
    let mut bmul2 = Modifier::brightness_multiply();
    bmul2.set_percent(2000);
    let expected = bmul2.apply(exposure2.apply(p.base_image().clone()));
    assert_eq!(p.current_image().pixels(), expected.pixels());
}

#[test]
fn disabled_modifier_is_skipped() {
    let original = gradient_image(8, 8);
    let mut p = ModifierPipeline::new(original, Size::new(8, 8));
    let mut exposure = Modifier::exposure();
    exposure.set_percent(50_000);
    exposure.set_enabled(false);
    p.push_modifier(exposure);
    p.reevaluate();
    assert_eq!(p.current_image().pixels(), p.base_image().pixels());
}

#[test]
fn set_modifier_percent_refolds_over_cached_base() {
    let original = gradient_image(8, 8);
    let mut p = ModifierPipeline::new(original, Size::new(8, 8));
    p.push_modifier(Modifier::exposure());
    p.reevaluate();
    let base = p.base_image().clone();
    p.set_modifier_percent(0, 30_000);
    let mut probe = Modifier::exposure();
    probe.set_percent(30_000);
    let expected = probe.apply(base);
    assert_eq!(p.current_image().pixels(), expected.pixels());
}

#[test]
fn modifier_count_tracks_pushes() {
    let original = gradient_image(4, 4);
    let mut p = ModifierPipeline::new(original, Size::new(4, 4));
    assert_eq!(p.modifier_count(), 0);
    p.push_modifier(Modifier::sepia());
    p.push_modifier(Modifier::blur());
    assert_eq!(p.modifier_count(), 2);
}
