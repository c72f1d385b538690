//! The raster image type: a width x height RGBA8 pixel buffer, decoding,
//! resampling and thumbnails (done by the `image` crate behind trusted
//! wrappers), and a lazily-built display-handle cache.

use vstd::prelude::*;

verus! {

/// Resampling filter used when an image is resized.
#[derive(Clone, Copy, PartialEq, Eq, Structural, Debug)]
pub enum FilterKind {
    Nearest,
    Triangle,
    CatmullRom,
    Gaussian,
}

pub open spec fn filter_id(f: FilterKind) -> nat {
    match f {
        FilterKind::Nearest => 0,
        FilterKind::Triangle => 1,
        FilterKind::CatmullRom => 2,
        FilterKind::Gaussian => 3,
    }
}

/// Mathematical view of a raster image: its dimensions and the flat RGBA
/// bytes, four per pixel, rows first.
pub ghost struct ImageView {
    pub width: nat,
    pub height: nat,
    pub data: Seq<u8>,
}

impl ImageView {
    pub open spec fn wf(self) -> bool {
        self.data.len() == 4 * self.width * self.height
    }
}

/// Builds an image view from its parts.
pub open spec fn img_view(width: nat, height: nat, data: Seq<u8>) -> ImageView {
    ImageView { width, height, data }
}

/// What `image::load_from_memory` decodes a byte stream to, converted to
/// RGBA8: `None` where the stream is rejected.
pub uninterp spec fn decoded_rgba(bytes: Seq<u8>) -> Option<ImageView>;

/// What `image::DynamicImage::resize` returns on an RGBA8 image: an
/// aspect-preserving resize toward the given bounds with the given filter.
pub uninterp spec fn resized_rgba(img: ImageView, nw: nat, nh: nat, filter: nat) -> ImageView;

/// What `image::DynamicImage::thumbnail` returns on an RGBA8 image: an
/// aspect-preserving downscale bounded by the given box.
pub uninterp spec fn thumbnailed_rgba(img: ImageView, bw: nat, bh: nat) -> ImageView;

/// What `image::imageops::colorops::huerotate_in_place` makes of the flat
/// RGBA bytes: each pixel's hue rotated by the given angle in degrees.
pub uninterp spec fn hue_rotated(data: Seq<u8>, degrees: int) -> Seq<u8>;

/// A decode failure, carrying the decoder's message.
#[derive(Debug)]
pub struct DecodeError {
    pub message: String,
}

/// Relies on `image::load_from_memory` and `DynamicImage::to_rgba8`: the
/// result is a function of the bytes alone, and the RGBA8 buffer of a
/// `width x height` image holds exactly `4 * width * height` bytes.
#[verifier::external_body]
fn decode_rgba_bytes(bytes: &[u8]) -> (r: Result<(u32, u32, Vec<u8>), String>)
    ensures
        match r {
            Ok(t) => decoded_rgba(bytes@) == Some(img_view(t.0 as nat, t.1 as nat, t.2@))
                && t.2@.len() == 4 * (t.0 as nat) * (t.1 as nat),
            Err(_) => decoded_rgba(bytes@) is None,
        },
{
    match image::load_from_memory(bytes) {
        Ok(img) => {
            let rgba = img.to_rgba8();
            let (w, h) = (rgba.width(), rgba.height());
            Ok((w, h, rgba.into_raw()))
        },
        Err(e) => Err(e.to_string()),
    }
}

/// Relies on `image::DynamicImage::resize` (via `RgbaImage::from_raw`, which
/// accepts a buffer of exactly `4 * width * height` bytes): the result is a
/// function of the image and the arguments alone; its buffer length matches
/// its dimensions; and when the bounds equal the image's own dimensions the
/// source shows the image is returned unchanged.
#[verifier::external_body]
fn resize_rgba(
    width: u32,
    height: u32,
    pixels: &Vec<u8>,
    nw: u32,
    nh: u32,
    filter: FilterKind,
) -> (r: (u32, u32, Vec<u8>))
    requires
        pixels@.len() == 4 * (width as nat) * (height as nat),
    ensures
        img_view(r.0 as nat, r.1 as nat, r.2@) == resized_rgba(
            img_view(width as nat, height as nat, pixels@),
            nw as nat,
            nh as nat,
            filter_id(filter),
        ),
        r.2@.len() == 4 * (r.0 as nat) * (r.1 as nat),
        nw == width && nh == height ==> r.0 == width && r.1 == height && r.2@ == pixels@,
{
    let f = match filter {
        FilterKind::Nearest => image::imageops::FilterType::Nearest,
        FilterKind::Triangle => image::imageops::FilterType::Triangle,
        FilterKind::CatmullRom => image::imageops::FilterType::CatmullRom,
        FilterKind::Gaussian => image::imageops::FilterType::Gaussian,
    };
    let buf = image::RgbaImage::from_raw(width, height, pixels.clone()).unwrap();
    let out = image::DynamicImage::ImageRgba8(buf).resize(nw, nh, f).into_rgba8();
    let (w, h) = (out.width(), out.height());
    (w, h, out.into_raw())
}

/// Relies on `image::DynamicImage::thumbnail`: the result is a function of
/// the image and the bounds alone, and its buffer length matches its
/// dimensions.
#[verifier::external_body]
fn thumbnail_rgba(
    width: u32,
    height: u32,
    pixels: &Vec<u8>,
    bw: u32,
    bh: u32,
) -> (r: (u32, u32, Vec<u8>))
    requires
        pixels@.len() == 4 * (width as nat) * (height as nat),
    ensures
        img_view(r.0 as nat, r.1 as nat, r.2@) == thumbnailed_rgba(
            img_view(width as nat, height as nat, pixels@),
            bw as nat,
            bh as nat,
        ),
        r.2@.len() == 4 * (r.0 as nat) * (r.1 as nat),
{
    let buf = image::RgbaImage::from_raw(width, height, pixels.clone()).unwrap();
    let out = image::DynamicImage::ImageRgba8(buf).thumbnail(bw, bh).into_rgba8();
    let (w, h) = (out.width(), out.height());
    (w, h, out.into_raw())
}

/// Relies on `image::imageops::colorops::huerotate_in_place`: the source
/// shows a per-pixel map, so the result is a function of the bytes and the
/// angle alone, of the same length, and the fourth (alpha) byte of each
/// pixel is carried over unchanged.
#[verifier::external_body]
fn hue_rotate_rgba(width: u32, height: u32, pixels: &Vec<u8>, degrees: i32) -> (r: Vec<u8>)
    requires
        pixels@.len() == 4 * (width as nat) * (height as nat),
    ensures
        r@ == hue_rotated(pixels@, degrees as int),
        r@.len() == pixels@.len(),
        forall|i: int| 0 <= i < r@.len() && i % 4 == 3 ==> r@[i] == pixels@[i],
{
    let mut buf = image::RgbaImage::from_raw(width, height, pixels.clone()).unwrap();
    image::imageops::colorops::huerotate_in_place(&mut buf, degrees);
    buf.into_raw()
}

/// A decoded image: an RGBA8 pixel buffer it owns exclusively, plus an
/// optional cached display handle, present only while it is derived from
/// the current pixel data.
pub struct RasterImage {
    width: u32,
    height: u32,
    pixels: Vec<u8>,
    display: Option<u64>,
}

impl View for RasterImage {
    type V = ImageView;

    closed spec fn view(&self) -> ImageView {
        ImageView {
            width: self.width as nat,
            height: self.height as nat,
            data: self.pixels@,
        }
    }
}

impl Clone for RasterImage {
    /// A clone deep-copies the pixel buffer and drops the display handle.
    fn clone(&self) -> (r: Self)
        ensures
            r@ == self@,
            r.display_cache() is None,
    {
        proof {
            use_type_invariant(self);
        }
        RasterImage {
            width: self.width,
            height: self.height,
            pixels: self.pixels.clone(),
            display: None,
        }
    }
}

impl RasterImage {
    #[verifier::type_invariant]
    pub open spec fn wf_inv(self) -> bool {
        self@.wf()
    }

    /// The cached display handle, if one is materialized.
    pub closed spec fn display_cache(self) -> Option<u64> {
        self.display
    }

    /// Decodes a byte stream; fails exactly on the streams the decoder
    /// rejects.
    pub fn from_bytes(bytes: &[u8]) -> (r: Result<Self, DecodeError>)
        ensures
            match r {
                Ok(img) => decoded_rgba(bytes@) == Some(img@) && img.display_cache() is None,
                Err(_) => decoded_rgba(bytes@) is None,
            },
    {
        match decode_rgba_bytes(bytes) {
            Ok((w, h, pixels)) => Ok(RasterImage { width: w, height: h, pixels, display: None }),
            Err(message) => Err(DecodeError { message }),
        }
    }

    /// Builds an image from a flat RGBA byte buffer; `None` exactly when the
    /// buffer's length does not match the dimensions.
    pub fn from_pixels(width: u32, height: u32, pixels: Vec<u8>) -> (r: Option<Self>)
        ensures
            match r {
                Some(img) => img@ == img_view(width as nat, height as nat, pixels@)
                    && img.display_cache() is None,
                None => pixels@.len() != 4 * (width as nat) * (height as nat),
            },
    {
        proof {
            assert((width as int) * (height as int) <= 0xffff_ffff * 0xffff_ffff)
                by (nonlinear_arith)
                requires width <= 0xffff_ffffu32 && height <= 0xffff_ffffu32,
            ;
        }
        let pixel_count = (width as u64) * (height as u64);
        proof {
            assert(4 * ((width as nat) * (height as nat)) == 4 * (width as nat) * (height as nat))
                by (nonlinear_arith);
        }
        if (pixels.len() as u128) == 4 * (pixel_count as u128) {
            Some(RasterImage { width, height, pixels, display: None })
        } else {
            None
        }
    }

    pub fn width(&self) -> (r: u32)
        ensures
            r as nat == self@.width,
    {
        self.width
    }

    pub fn height(&self) -> (r: u32)
        ensures
            r as nat == self@.height,
    {
        self.height
    }

    /// The pixel buffer's size in bytes.
    pub fn raw_size(&self) -> (r: u64)
        ensures
            r as nat == self@.data.len(),
    {
        proof {
            use_type_invariant(self);
        }
        (self.pixels.len() as u64)
    }

    /// Read access to the flat RGBA bytes.
    pub fn pixels(&self) -> (r: &Vec<u8>)
        ensures
            r@ == self@.data,
    {
        &self.pixels
    }

    /// Resizes toward the given bounds, preserving aspect ratio.
    pub fn resize(&self, nw: u32, nh: u32, filter: FilterKind) -> (r: RasterImage)
        ensures
            r@ == resized_rgba(self@, nw as nat, nh as nat, filter_id(filter)),
            r@.wf(),
            r.display_cache() is None,
    {
        proof {
            use_type_invariant(self);
        }
        let (w, h, pixels) = resize_rgba(self.width, self.height, &self.pixels, nw, nh, filter);
        RasterImage { width: w, height: h, pixels, display: None }
    }

    /// An aspect-preserving downscale bounded by a `bw x bh` box.
    pub fn thumbnail(&self, bw: u32, bh: u32) -> (r: RasterImage)
        ensures
            r@ == thumbnailed_rgba(self@, bw as nat, bh as nat),
            r@.wf(),
            r.display_cache() is None,
    {
        proof {
            use_type_invariant(self);
        }
        let (w, h, pixels) = thumbnail_rgba(self.width, self.height, &self.pixels, bw, bh);
        RasterImage { width: w, height: h, pixels, display: None }
    }

    /// Rotates every pixel's hue by the given angle in degrees.
    pub fn hue_rotate(&self, degrees: i32) -> (r: RasterImage)
        ensures
            r@.width == self@.width,
            r@.height == self@.height,
            r@.data == hue_rotated(self@.data, degrees as int),
            r@.wf(),
            r.display_cache() is None,
    {
        proof {
            use_type_invariant(self);
        }
        let pixels = hue_rotate_rgba(self.width, self.height, &self.pixels, degrees);
        RasterImage { width: self.width, height: self.height, pixels, display: None }
    }

    /// First request materializes a handle from the caller-supplied fresh
    /// one; later requests return the cached handle unchanged.
    pub fn display_handle(&mut self, fresh: u64) -> (r: u64)
        ensures
            final(self)@ == old(self)@,
            match old(self).display_cache() {
                Some(h) => r == h && final(self).display_cache() == old(self).display_cache(),
                None => r == fresh && final(self).display_cache() == Some(fresh),
            },
    {
        proof {
            use_type_invariant(&*self);
        }
        match self.display {
            Some(h) => h,
            None => {
                self.display = Some(fresh);
                fresh
            },
        }
    }
}

} // verus!
