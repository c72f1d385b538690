use pixeledit::FilterKind;
use pixeledit::RasterImage;

fn png_bytes(width: u32, height: u32, rgba: [u8; 4]) -> Vec<u8> {
    let img = image::RgbaImage::from_pixel(width, height, image::Rgba(rgba));
    let mut bytes = Vec::new();
    image::DynamicImage::ImageRgba8(img)
        .write_to(&mut std::io::Cursor::new(&mut bytes), image::ImageOutputFormat::Png)
        .unwrap();
    bytes
}

#[test]
fn decode_real_png() {
    let bytes = png_bytes(3, 2, [10, 20, 30, 255]);
    let img = RasterImage::from_bytes(&bytes).unwrap();
    assert_eq!(img.width(), 3);
    assert_eq!(img.height(), 2);
    assert_eq!(img.pixels().len(), 3 * 2 * 4);
    for p in 0..6 {
        assert_eq!(&img.pixels()[p * 4..p * 4 + 4], &[10, 20, 30, 255]);
    }
}

#[test]
fn decode_rejects_garbage() {
    let r = RasterImage::from_bytes(b"certainly not an image");
    assert!(r.is_err());
}

#[test]
fn from_pixels_checks_length() {
    assert!(RasterImage::from_pixels(2, 2, vec![0u8; 16]).is_some());
    assert!(RasterImage::from_pixels(2, 2, vec![0u8; 15]).is_none());
    assert!(RasterImage::from_pixels(2, 2, vec![0u8; 17]).is_none());
}

#[test]
fn resize_halves_dimensions() {
    let img = RasterImage::from_pixels(4, 4, vec![200u8; 64]).unwrap();
    let out = img.resize(2, 2, FilterKind::Triangle);
    assert_eq!(out.width(), 2);
    assert_eq!(out.height(), 2);
    assert_eq!(out.pixels().len(), 16);
    // a uniform image stays uniform under any resampling filter
    assert_eq!(&out.pixels()[0..4], &[200, 200, 200, 200]);
}

#[test]
fn resize_keeps_aspect_ratio() {
    let img = RasterImage::from_pixels(100, 50, vec![9u8; 100 * 50 * 4]).unwrap();
    let out = img.resize(10, 10, FilterKind::Nearest);
    assert_eq!((out.width(), out.height()), (10, 5));
}

#[test]
fn thumbnail_bounded_by_box() {
    let img = RasterImage::from_pixels(100, 50, vec![9u8; 100 * 50 * 4]).unwrap();
    let out = img.thumbnail(10, 10);
    assert_eq!((out.width(), out.height()), (10, 5));
    assert_eq!(out.pixels().len(), 10 * 5 * 4);
}

#[test]
fn hue_rotate_preserves_alpha_and_changes_color() {
    let img = RasterImage::from_pixels(1, 1, vec![255, 0, 0, 77]).unwrap();
    let out = img.hue_rotate(120);
    assert_eq!(out.pixels()[3], 77);
    assert_ne!(&out.pixels()[0..3], &[255, 0, 0]);
    assert_eq!((out.width(), out.height()), (1, 1));
}

#[test]
fn clone_is_deep_and_drops_display_handle() {
    let mut img = RasterImage::from_pixels(1, 1, vec![1, 2, 3, 4]).unwrap();
    assert_eq!(img.display_handle(7), 7);
    let mut copy = img.clone();
    assert_eq!(copy.pixels(), img.pixels());
    // the copy has no handle: its first request materializes a fresh one
    assert_eq!(copy.display_handle(9), 9);
}

#[test]
fn display_handle_is_cached_until_rebuilt() {
    let mut img = RasterImage::from_pixels(1, 1, vec![1, 2, 3, 4]).unwrap();
    assert_eq!(img.display_handle(7), 7);
    assert_eq!(img.display_handle(9), 7, "a cached handle is reused, not replaced");
}

#[test]
fn raw_size_counts_bytes() {
    let img = RasterImage::from_pixels(3, 2, vec![0u8; 24]).unwrap();
    assert_eq!(img.raw_size(), 24);
}
