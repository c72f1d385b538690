//! Pixel-space sizes and the box-fitting rule used to size the preview.

use vstd::prelude::*;

verus! {

/// A size in whole pixels.
#[derive(Clone, Copy, PartialEq, Eq, Structural, Debug)]
pub struct Size {
    pub width: u32,
    pub height: u32,
}

impl Size {
    pub fn new(width: u32, height: u32) -> (r: Size)
        ensures
            r == (Size { width, height }),
    {
        Size { width, height }
    }
}

/// Where `fit_into` lands: `inner` scaled by the smaller of the two axis
/// ratios (capped at 1 unless upscaling is allowed), the scaled lengths
/// rounded down and saturated at the `u32` limit.
pub open spec fn fit_into_s(outer: Size, inner: Size, allow_upscale: bool) -> Size {
    let ow = outer.width as int;
    let oh = outer.height as int;
    let iw = inner.width as int;
    let ih = inner.height as int;
    if ow * ih <= oh * iw {
        if !allow_upscale && ow >= iw {
            inner
        } else {
            Size {
                width: outer.width,
                height: (if ih * ow / iw > 0xffff_ffff {
                    0xffff_ffffu32
                } else {
                    (ih * ow / iw) as u32
                }),
            }
        }
    } else {
        if !allow_upscale && oh >= ih {
            inner
        } else {
            Size {
                width: (if iw * oh / ih > 0xffff_ffff {
                    0xffff_ffffu32
                } else {
                    (iw * oh / ih) as u32
                }),
                height: outer.height,
            }
        }
    }
}

/// Scales `inner` to fit inside `outer`, keeping its aspect ratio; unless
/// `allow_upscale` is set the result never exceeds `inner` itself.
pub fn fit_into(outer: &Size, inner: &Size, allow_upscale: bool) -> (r: Size)
    requires
        inner.width > 0,
        inner.height > 0,
    ensures
        r == fit_into_s(*outer, *inner, allow_upscale),
{
    let ow = outer.width as u64;
    let oh = outer.height as u64;
    let iw = inner.width as u64;
    let ih = inner.height as u64;
    proof {
        vstd::arithmetic::mul::lemma_mul_upper_bound(ow as int, 0xffff_ffff, ih as int, 0xffff_ffff);
        vstd::arithmetic::mul::lemma_mul_upper_bound(oh as int, 0xffff_ffff, iw as int, 0xffff_ffff);
        vstd::arithmetic::mul::lemma_mul_upper_bound(ih as int, 0xffff_ffff, ow as int, 0xffff_ffff);
        vstd::arithmetic::mul::lemma_mul_upper_bound(iw as int, 0xffff_ffff, oh as int, 0xffff_ffff);
    }
    if ow * ih <= oh * iw {
        if !allow_upscale && ow >= iw {
            *inner
        } else {
            let hh = ih * ow / iw;
            Size {
                width: outer.width,
                height: (if hh > 0xffff_ffff {
                    0xffff_ffff
                } else {
                    hh as u32
                }),
            }
        }
    } else {
        if !allow_upscale && oh >= ih {
            *inner
        } else {
            let ww = iw * oh / ih;
            Size {
                width: (if ww > 0xffff_ffff {
                    0xffff_ffff
                } else {
                    ww as u32
                }),
                height: outer.height,
            }
        }
    }
}

} // verus!
