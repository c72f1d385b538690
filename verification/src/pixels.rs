//! The per-pixel color algorithms, in exact integer arithmetic over flat
//! RGBA bytes. Percentages arrive in thousandths of the user-facing unit
//! ("milli" values: 50% is 50_000, a multiplier of 1.0 is 1_000), so every
//! transform is a pure function on integers; each one clamps its inputs to
//! its range and its output channels to `[0, 255]`, and leaves alpha alone.

use vstd::prelude::*;
use vstd::arithmetic::div_mod::lemma_div_is_ordered;
use vstd::arithmetic::div_mod::lemma_fundamental_div_mod;
use vstd::arithmetic::div_mod::lemma_fundamental_div_mod_converse;
use crate::fixedpoint::div_floor;
use crate::fixedpoint::div_trunc;
use crate::fixedpoint::fdiv;
use crate::fixedpoint::pow_fp;
use crate::fixedpoint::pow_fp_s;
use crate::fixedpoint::tdiv;

verus! {

/// `v` forced into `[lo, hi]`.
pub open spec fn clip(v: int, lo: int, hi: int) -> int {
    if v < lo {
        lo
    } else if v > hi {
        hi
    } else {
        v
    }
}

/// Resolves a flat byte index into its pixel and channel.
pub(crate) proof fn lemma_pixel_index(p: int, k: int)
    requires
        0 <= p,
        0 <= k < 4,
    ensures
        (4 * p + k) / 4 == p,
        (4 * p + k) % 4 == k,
{
    lemma_fundamental_div_mod_converse(4 * p + k, 4, p, k);
}

// ---------------------------------------------------------------------------
// Exposure: a linear, clamped addition to each color channel.
// ---------------------------------------------------------------------------
/// One channel under exposure `pm` (milli percent, `[-100_000, 100_000]`):
/// add `0.6 * percent * 2.55`, truncated, then clamp.
pub open spec fn exposure_channel_s(c: u8, pm: int) -> u8 {
    clip(c + tdiv(153 * clip(pm, -100000, 100000), 100000), 0, 255) as u8
}

fn exposure_channel(c: u8, pm: i32) -> (r: u8)
    ensures
        r == exposure_channel_s(c, pm as int),
{
    let pmc: i64 = if pm < -100000 {
        -100000
    } else if pm > 100000 {
        100000
    } else {
        pm as i64
    };
    let delta = div_trunc(153 * pmc, 100000);
    let v = c as i64 + delta;
    if v < 0 {
        0
    } else if v > 255 {
        255
    } else {
        v as u8
    }
}

// ---------------------------------------------------------------------------
// Contrast: a stretch around mid-gray by the squared factor
// `((100 + 0.6 * percent) / 100)^2`.
// ---------------------------------------------------------------------------
/// One channel under contrast `pm` (milli percent, `[-100_000, 100_000]`).
pub open spec fn contrast_channel_s(c: u8, pm: int) -> u8 {
    let t = 100000 + tdiv(3 * clip(pm, -100000, 100000), 5);
    let num = (2 * c - 255) * t * t + 255 * 10000000000;
    if num < 0 {
        0
    } else {
        clip(num / 20000000000, 0, 255) as u8
    }
}

fn contrast_channel(c: u8, pm: i32) -> (r: u8)
    ensures
        r == contrast_channel_s(c, pm as int),
{
    let pmc: i64 = if pm < -100000 {
        -100000
    } else if pm > 100000 {
        100000
    } else {
        pm as i64
    };
    let t = 100000 + div_trunc(3 * pmc, 5);
    proof {
        let d = 2 * (c as int) - 255;
        assert(-255 * 160000 <= d * t <= 255 * 160000 && -255 * 160000 * 160000 <= d * t * t
            <= 255 * 160000 * 160000)
            by (nonlinear_arith)
            requires -255 <= d <= 255 && 40000 <= t <= 160000,
        ;
    }
    let num = (2 * (c as i64) - 255) * t * t + 255 * 10000000000;
    if num < 0 {
        0
    } else {
        let q = (num as u64) / 20000000000;
        if q > 255 {
            255
        } else {
            q as u8
        }
    }
}

// ---------------------------------------------------------------------------
// Gamma: each channel raised to the exponent `1 - percent`, in 16.16 fixed
// point, the fractional exponent handled by `pow_fp`.
// ---------------------------------------------------------------------------
/// One channel under gamma `pm` (milli percent, `[-1_000, 1_000]`).
pub open spec fn gamma_channel_s(c: u8, pm: int) -> u8 {
    let gm = 1000 - clip(pm, -1000, 1000);
    let x = (c * 65536) / 255;
    let e = (gm * 65536) / 1000;
    (((pow_fp_s(x as nat, e as nat) * 255) / 65536) as u8)
}

fn gamma_channel(c: u8, pm: i32) -> (r: u8)
    ensures
        r == gamma_channel_s(c, pm as int),
{
    let pmc: i64 = if pm < -1000 {
        -1000
    } else if pm > 1000 {
        1000
    } else {
        pm as i64
    };
    let gm = (1000 - pmc) as u64;
    let x = ((c as u64) * 65536) / 255;
    proof {
        lemma_div_is_ordered((c as int) * 65536, (255 * 65536) as int, 255);
    }
    let e = (gm * 65536) / 1000;
    proof {
        lemma_div_is_ordered((gm as int) * 65536, (2000 * 65536) as int, 1000);
    }
    let p = pow_fp(x, e);
    proof {
        lemma_div_is_ordered((p as int) * 255, (65536 * 255) as int, 65536);
    }
    ((p * 255) / 65536) as u8
}

// ---------------------------------------------------------------------------
// Brightness multiply: each channel scaled by the multiplier directly.
// ---------------------------------------------------------------------------
/// One channel under a brightness multiplier `pm` (milli, `[0, 3_000]`,
/// where 1_000 is the neutral multiplier 1.0).
pub open spec fn bmul_channel_s(c: u8, pm: int) -> u8 {
    clip((c * clip(pm, 0, 3000)) / 1000, 0, 255) as u8
}

fn bmul_channel(c: u8, pm: i32) -> (r: u8)
    ensures
        r == bmul_channel_s(c, pm as int),
{
    let pmc: u64 = if pm < 0 {
        0
    } else if pm > 3000 {
        3000
    } else {
        pm as u64
    };
    proof {
        vstd::arithmetic::mul::lemma_mul_upper_bound(c as int, 255, pmc as int, 3000);
    }
    let q = ((c as u64) * pmc) / 1000;
    if q > 255 {
        255
    } else {
        q as u8
    }
}

// ---------------------------------------------------------------------------
// Applying a channel-wise transform to a whole buffer.
// ---------------------------------------------------------------------------
/// Byte `i` of a buffer under a channel-wise transform: alpha bytes are
/// carried over, color bytes transformed.
pub open spec fn channelwise_at(data: Seq<u8>, pm: int, kind: int, i: int) -> u8 {
    if i % 4 == 3 {
        data[i]
    } else if kind == 0 {
        exposure_channel_s(data[i], pm)
    } else if kind == 1 {
        contrast_channel_s(data[i], pm)
    } else if kind == 2 {
        gamma_channel_s(data[i], pm)
    } else {
        bmul_channel_s(data[i], pm)
    }
}

pub open spec fn channelwise_data(data: Seq<u8>, pm: int, kind: int) -> Seq<u8> {
    Seq::new(data.len(), |i: int| channelwise_at(data, pm, kind, i))
}

/// The exposure transform over a whole buffer.
pub open spec fn exposure_data(data: Seq<u8>, pm: int) -> Seq<u8> {
    channelwise_data(data, pm, 0)
}

/// The contrast transform over a whole buffer.
pub open spec fn contrast_data(data: Seq<u8>, pm: int) -> Seq<u8> {
    channelwise_data(data, pm, 1)
}

/// The gamma transform over a whole buffer.
pub open spec fn gamma_data(data: Seq<u8>, pm: int) -> Seq<u8> {
    channelwise_data(data, pm, 2)
}

/// The brightness-multiply transform over a whole buffer.
pub open spec fn bmul_data(data: Seq<u8>, pm: int) -> Seq<u8> {
    channelwise_data(data, pm, 3)
}

/// Runs one of the channel-wise transforms over a flat RGBA buffer.
pub(crate) fn channelwise_map(data: &Vec<u8>, pm: i32, kind: u8) -> (r: Vec<u8>)
    requires
        kind < 4,
    ensures
        r@ == channelwise_data(data@, pm as int, kind as int),
{
    let mut out: Vec<u8> = Vec::new();
    let n = data.len();
    let mut i: usize = 0;
    while i < n
        invariant
            i <= n,
            n == data@.len(),
            kind < 4,
            out@.len() == i,
            forall|j: int|
                0 <= j < i ==> out@[j] == channelwise_at(data@, pm as int, kind as int, j),
        decreases n - i,
    {
        let c = data[i];
        let v = if i % 4 == 3 {
            c
        } else if kind == 0 {
            exposure_channel(c, pm)
        } else if kind == 1 {
            contrast_channel(c, pm)
        } else if kind == 2 {
            gamma_channel(c, pm)
        } else {
            bmul_channel(c, pm)
        };
        out.push(v);
        i = i + 1;
    }
    proof {
        assert(out@ =~= channelwise_data(data@, pm as int, kind as int));
    }
    out
}

// ---------------------------------------------------------------------------
// Sepia: a per-pixel blend between identity and the fixed sepia matrix.
// ---------------------------------------------------------------------------
/// A weighted sum of the three color channels, weights scaled by 10^8,
/// rounded down after adding `off`.
pub open spec fn weighted_s(wr: int, wg: int, wb: int, r: u8, g: u8, b: u8, off: int) -> int {
    (wr * r + wg * g + wb * b + off) / 100000000
}

/// Row `k` of the sepia blend at level `lv` (milli percent in
/// `[0, 100_000]`), scaled by 10^8: a straight-line ramp from the identity
/// matrix to the fixed sepia matrix.
pub open spec fn sepia_weights(k: int, lv: int) -> (int, int, int) {
    if k == 0 {
        (100000000 - 607 * lv, 769 * lv, 189 * lv)
    } else if k == 1 {
        (349 * lv, 100000000 - 314 * lv, 168 * lv)
    } else {
        (272 * lv, 534 * lv, 100000000 - 869 * lv)
    }
}

pub open spec fn sepia_at(data: Seq<u8>, pm: int, i: int) -> u8 {
    if i % 4 == 3 {
        data[i]
    } else {
        let p = i / 4;
        let w = sepia_weights(i % 4, clip(pm, 0, 100000));
        clip(weighted_s(w.0, w.1, w.2, data[4 * p], data[4 * p + 1], data[4 * p + 2], 0), 0, 255) as u8
    }
}

pub open spec fn sepia_data(data: Seq<u8>, pm: int) -> Seq<u8> {
    Seq::new(data.len(), |i: int| sepia_at(data, pm, i))
}

/// A clamped weighted channel sum with weights scaled by 10^8.
fn weighted_sum(wr: u64, wg: u64, wb: u64, r: u8, g: u8, b: u8, off: u64) -> (v: u8)
    requires
        wr <= 200000000,
        wg <= 200000000,
        wb <= 200000000,
        off <= 50000000,
    ensures
        v == clip(weighted_s(wr as int, wg as int, wb as int, r, g, b, off as int), 0, 255) as u8,
{
    proof {
        vstd::arithmetic::mul::lemma_mul_upper_bound(wr as int, 200000000, r as int, 255);
        vstd::arithmetic::mul::lemma_mul_upper_bound(wg as int, 200000000, g as int, 255);
        vstd::arithmetic::mul::lemma_mul_upper_bound(wb as int, 200000000, b as int, 255);
    }
    let q = (wr * (r as u64) + wg * (g as u64) + wb * (b as u64) + off) / 100000000;
    if q > 255 {
        255
    } else {
        q as u8
    }
}

fn sepia_rgb(r: u8, g: u8, b: u8, pm: i32) -> (v: (u8, u8, u8))
    ensures
        ({
            let lv = clip(pm as int, 0, 100000);
            let w0 = sepia_weights(0, lv);
            let w1 = sepia_weights(1, lv);
            let w2 = sepia_weights(2, lv);
            v.0 == clip(weighted_s(w0.0, w0.1, w0.2, r, g, b, 0), 0, 255) as u8
                && v.1 == clip(weighted_s(w1.0, w1.1, w1.2, r, g, b, 0), 0, 255) as u8
                && v.2 == clip(weighted_s(w2.0, w2.1, w2.2, r, g, b, 0), 0, 255) as u8
        }),
{
    let lv: u64 = if pm < 0 {
        0
    } else if pm > 100000 {
        100000
    } else {
        pm as u64
    };
    let tr = weighted_sum(100000000 - 607 * lv, 769 * lv, 189 * lv, r, g, b, 0);
    let tg = weighted_sum(349 * lv, 100000000 - 314 * lv, 168 * lv, r, g, b, 0);
    let tb = weighted_sum(272 * lv, 534 * lv, 100000000 - 869 * lv, r, g, b, 0);
    (tr, tg, tb)
}

/// Runs the sepia transform over a flat RGBA buffer.
pub(crate) fn sepia_map(data: &Vec<u8>, pm: i32) -> (r: Vec<u8>)
    requires
        data@.len() % 4 == 0,
    ensures
        r@ == sepia_data(data@, pm as int),
{
    let mut out: Vec<u8> = Vec::new();
    let n = data.len() / 4;
    proof {
        lemma_fundamental_div_mod(data@.len() as int, 4);
    }
    let mut p: usize = 0;
    while p < n
        invariant
            p <= n,
            n <= usize::MAX / 4,
            4 * n == data@.len(),
            out@.len() == 4 * p,
            forall|j: int| 0 <= j < 4 * p ==> out@[j] == sepia_at(data@, pm as int, j),
        decreases n - p,
    {
        let cr = data[4 * p];
        let cg = data[4 * p + 1];
        let cb = data[4 * p + 2];
        let ca = data[4 * p + 3];
        let (tr, tg, tb) = sepia_rgb(cr, cg, cb, pm);
        out.push(tr);
        out.push(tg);
        out.push(tb);
        out.push(ca);
        proof {
            lemma_pixel_index(p as int, 0);
            lemma_pixel_index(p as int, 1);
            lemma_pixel_index(p as int, 2);
            lemma_pixel_index(p as int, 3);
        }
        p = p + 1;
    }
    proof {
        assert(out@ =~= sepia_data(data@, pm as int));
    }
    out
}

// ---------------------------------------------------------------------------
// Luma-aware brightness: scale the luma channel in YUV space (BT.470
// coefficients), the scale shaped by a gamma knob, and convert back.
// ---------------------------------------------------------------------------
/// One pixel under the luma-aware brightness scale: `pm` is the coefficient
/// in milli (`[-2_000, 2_000]`), `gam` the gamma knob in milli
/// (`[100, 1_500]`). Channels are normalized to 16.16 fixed point; the luma
/// becomes `y * (1 + c * (1 - y^gam))`; chroma is carried over.
pub open spec fn luma_rgb_s(r: u8, g: u8, b: u8, pm: int, gam: int) -> (int, int, int) {
    let cm = clip(pm, -2000, 2000);
    let gm = clip(gam, 100, 1500);
    let rf = (r * 65536) / 255;
    let gf = (g * 65536) / 255;
    let bf = (b * 65536) / 255;
    let y = (299 * rf + 587 * gf + 114 * bf) / 1000;
    let u = fdiv(43600 * bf - 14713 * rf - 28886 * gf, 100000);
    let v = fdiv(61500 * rf - 51499 * gf - 10001 * bf, 100000);
    let pw = pow_fp_s(y as nat, ((gm * 65536) / 1000) as nat);
    let y2 = y + fdiv(y * cm * (65536 - pw), 65536000);
    let rr = y2 + fdiv(113983 * v, 100000);
    let gg = y2 - fdiv(39465 * u, 100000) - fdiv(58060 * v, 100000);
    let bb = y2 + fdiv(203211 * u, 100000);
    (
        clip(fdiv(rr * 255, 65536), 0, 255),
        clip(fdiv(gg * 255, 65536), 0, 255),
        clip(fdiv(bb * 255, 65536), 0, 255),
    )
}

pub open spec fn luma_at(data: Seq<u8>, pm: int, gam: int, i: int) -> u8 {
    if i % 4 == 3 {
        data[i]
    } else {
        let p = i / 4;
        let t = luma_rgb_s(data[4 * p], data[4 * p + 1], data[4 * p + 2], pm, gam);
        if i % 4 == 0 {
            t.0 as u8
        } else if i % 4 == 1 {
            t.1 as u8
        } else {
            t.2 as u8
        }
    }
}

pub open spec fn luma_data(data: Seq<u8>, pm: int, gam: int) -> Seq<u8> {
    Seq::new(data.len(), |i: int| luma_at(data, pm, gam, i))
}

fn channel_fp(c: u8) -> (r: i64)
    ensures
        r == (c as int * 65536) / 255,
        0 <= r <= 65536,
{
    proof {
        lemma_div_is_ordered((c as int) * 65536, (255 * 65536) as int, 255);
    }
    (((c as u64) * 65536) / 255) as i64
}

#[verifier::rlimit(100)]
fn luma_rgb(r: u8, g: u8, b: u8, pm: i32, gam: i32) -> (v: (u8, u8, u8))
    ensures
        ({
            let t = luma_rgb_s(r, g, b, pm as int, gam as int);
            v.0 == t.0 as u8 && v.1 == t.1 as u8 && v.2 == t.2 as u8
        }),
{
    let cm: i64 = if pm < -2000 {
        -2000
    } else if pm > 2000 {
        2000
    } else {
        pm as i64
    };
    let gm: i64 = if gam < 100 {
        100
    } else if gam > 1500 {
        1500
    } else {
        gam as i64
    };
    let rf = channel_fp(r);
    let gf = channel_fp(g);
    let bf = channel_fp(b);
    let ynum = 299 * rf + 587 * gf + 114 * bf;
    let y = ((ynum as u64) / 1000) as i64;
    proof {
        lemma_div_is_ordered(ynum as int, (1000 * 65536) as int, 1000);
    }
    let u = div_floor(43600 * bf - 14713 * rf - 28886 * gf, 100000);
    let v = div_floor(61500 * rf - 51499 * gf - 10001 * bf, 100000);
    proof {
        lemma_div_is_ordered((-14713 - 28886) * 65536, 43600 * bf - 14713 * rf - 28886 * gf, 100000);
        lemma_div_is_ordered(43600 * bf - 14713 * rf - 28886 * gf, (43600 * 65536) as int, 100000);
        lemma_div_is_ordered((-51499 - 10001) * 65536, 61500 * rf - 51499 * gf - 10001 * bf, 100000);
        lemma_div_is_ordered(61500 * rf - 51499 * gf - 10001 * bf, (61500 * 65536) as int, 100000);
    }
    let e = ((gm as u64) * 65536) / 1000;
    proof {
        lemma_div_is_ordered((gm as int) * 65536, (1500 * 65536) as int, 1000);
    }
    let pw = pow_fp(y as u64, e) as i64;
    proof {
        assert(-65536 * 2000 <= y * cm <= 65536 * 2000 && -65536 * 2000 * 65536 <= y * cm * (65536
            - pw) <= 65536 * 2000 * 65536)
            by (nonlinear_arith)
            requires 0 <= y <= 65536 && -2000 <= cm <= 2000 && 0 <= 65536 - pw <= 65536,
        ;
    }
    let y2 = y + div_floor(y * cm * (65536 - pw), 65536000);
    proof {
        lemma_div_is_ordered(-(65536 as int) * 2000 * 65536, y * cm * (65536 - pw), 65536000);
        lemma_div_is_ordered(y * cm * (65536 - pw), (65536 * 2000 * 65536) as int, 65536000);
    }
    let rr = y2 + div_floor(113983 * v, 100000);
    let gg = y2 - div_floor(39465 * u, 100000) - div_floor(58060 * v, 100000);
    let bb = y2 + div_floor(203211 * u, 100000);
    proof {
        lemma_div_is_ordered(113983 * -65536, 113983 * v, 100000);
        lemma_div_is_ordered(113983 * v, (113983 * 65536) as int, 100000);
        lemma_div_is_ordered(39465 * -65536, 39465 * u, 100000);
        lemma_div_is_ordered(39465 * u, (39465 * 65536) as int, 100000);
        lemma_div_is_ordered(58060 * -65536, 58060 * v, 100000);
        lemma_div_is_ordered(58060 * v, (58060 * 65536) as int, 100000);
        lemma_div_is_ordered(203211 * -65536, 203211 * u, 100000);
        lemma_div_is_ordered(203211 * u, (203211 * 65536) as int, 100000);
    }
    let vr = clamp_channel(div_floor(rr * 255, 65536));
    let vg = clamp_channel(div_floor(gg * 255, 65536));
    let vb = clamp_channel(div_floor(bb * 255, 65536));
    (vr, vg, vb)
}

fn clamp_channel(v: i64) -> (r: u8)
    ensures
        r == clip(v as int, 0, 255) as u8,
{
    if v < 0 {
        0
    } else if v > 255 {
        255
    } else {
        v as u8
    }
}

/// Runs the luma-aware brightness transform over a flat RGBA buffer.
#[verifier::rlimit(60)]
pub(crate) fn luma_map(data: &Vec<u8>, pm: i32, gam: i32) -> (r: Vec<u8>)
    requires
        data@.len() % 4 == 0,
    ensures
        r@ == luma_data(data@, pm as int, gam as int),
{
    let mut out: Vec<u8> = Vec::new();
    let n = data.len() / 4;
    proof {
        lemma_fundamental_div_mod(data@.len() as int, 4);
    }
    let mut p: usize = 0;
    while p < n
        invariant
            p <= n,
            n <= usize::MAX / 4,
            4 * n == data@.len(),
            out@.len() == 4 * p,
            forall|j: int| 0 <= j < 4 * p ==> out@[j] == luma_at(data@, pm as int, gam as int, j),
        decreases n - p,
    {
        let cr = data[4 * p];
        let cg = data[4 * p + 1];
        let cb = data[4 * p + 2];
        let ca = data[4 * p + 3];
        let (tr, tg, tb) = luma_rgb(cr, cg, cb, pm, gam);
        out.push(tr);
        out.push(tg);
        out.push(tb);
        out.push(ca);
        proof {
            lemma_pixel_index(p as int, 0);
            lemma_pixel_index(p as int, 1);
            lemma_pixel_index(p as int, 2);
            lemma_pixel_index(p as int, 3);
        }
        p = p + 1;
    }
    proof {
        assert(out@ =~= luma_data(data@, pm as int, gam as int));
    }
    out
}

// ---------------------------------------------------------------------------
// Color grading: a user 3x3 matrix, blended toward identity by the percent,
// applied row-wise with rounding to nearest.
// ---------------------------------------------------------------------------
/// A free-form 3x3 grading matrix; each cell is a coefficient in milli,
/// meaningful in `[0, 2_000]` (clamped at use).
#[derive(Clone, Copy, PartialEq, Eq, Structural, Debug)]
pub struct GradingMatrix {
    pub m00: u32,
    pub m01: u32,
    pub m02: u32,
    pub m10: u32,
    pub m11: u32,
    pub m12: u32,
    pub m20: u32,
    pub m21: u32,
    pub m22: u32,
}

impl GradingMatrix {
    /// The identity matrix: the neutral grading.
    pub fn identity() -> (r: Self)
        ensures
            r == (GradingMatrix {
                m00: 1000, m01: 0, m02: 0,
                m10: 0, m11: 1000, m12: 0,
                m20: 0, m21: 0, m22: 1000,
            }),
    {
        GradingMatrix { m00: 1000, m01: 0, m02: 0, m10: 0, m11: 1000, m12: 0, m20: 0, m21: 0, m22: 1000 }
    }

    /// Preset: every row averages the three channels.
    pub fn grayscale_average() -> (r: Self)
        ensures
            r == (GradingMatrix {
                m00: 333, m01: 333, m02: 333,
                m10: 333, m11: 333, m12: 333,
                m20: 333, m21: 333, m22: 333,
            }),
    {
        GradingMatrix { m00: 333, m01: 333, m02: 333, m10: 333, m11: 333, m12: 333, m20: 333, m21: 333, m22: 333 }
    }

    /// Preset: every row is the BT.470 luma row.
    pub fn luma_brightness() -> (r: Self)
        ensures
            r == (GradingMatrix {
                m00: 299, m01: 587, m02: 114,
                m10: 299, m11: 587, m12: 114,
                m20: 299, m21: 587, m22: 114,
            }),
    {
        GradingMatrix { m00: 299, m01: 587, m02: 114, m10: 299, m11: 587, m12: 114, m20: 299, m21: 587, m22: 114 }
    }

    /// Preset: the fixed sepia matrix.
    pub fn sepia_tone() -> (r: Self)
        ensures
            r == (GradingMatrix {
                m00: 393, m01: 769, m02: 189,
                m10: 349, m11: 686, m12: 168,
                m20: 272, m21: 534, m22: 131,
            }),
    {
        GradingMatrix { m00: 393, m01: 769, m02: 189, m10: 349, m11: 686, m12: 168, m20: 272, m21: 534, m22: 131 }
    }
}

/// A diagonal grading weight, scaled by 10^8: the cell blended toward the
/// identity's 1.0 by the level.
pub open spec fn grading_diag_w(q: int, lv: int) -> int {
    100000000 + (clip(q, 0, 2000) - 1000) * lv
}

/// An off-diagonal grading weight, scaled by 10^8: the cell blended toward
/// the identity's 0.0 by the level.
pub open spec fn grading_off_w(q: int, lv: int) -> int {
    clip(q, 0, 2000) * lv
}

/// Row `k` of the blended grading matrix at level `lv` (milli percent in
/// `[0, 100_000]`), scaled by 10^8.
pub open spec fn grading_weights(m: GradingMatrix, k: int, lv: int) -> (int, int, int) {
    if k == 0 {
        (grading_diag_w(m.m00 as int, lv), grading_off_w(m.m01 as int, lv), grading_off_w(m.m02 as int, lv))
    } else if k == 1 {
        (grading_off_w(m.m10 as int, lv), grading_diag_w(m.m11 as int, lv), grading_off_w(m.m12 as int, lv))
    } else {
        (grading_off_w(m.m20 as int, lv), grading_off_w(m.m21 as int, lv), grading_diag_w(m.m22 as int, lv))
    }
}

pub open spec fn grading_at(data: Seq<u8>, pm: int, m: GradingMatrix, i: int) -> u8 {
    if i % 4 == 3 {
        data[i]
    } else {
        let p = i / 4;
        let w = grading_weights(m, i % 4, clip(pm, 0, 100000));
        clip(
            weighted_s(w.0, w.1, w.2, data[4 * p], data[4 * p + 1], data[4 * p + 2], 50000000),
            0,
            255,
        ) as u8
    }
}

pub open spec fn grading_data(data: Seq<u8>, pm: int, m: GradingMatrix) -> Seq<u8> {
    Seq::new(data.len(), |i: int| grading_at(data, pm, m, i))
}

fn grading_diag(q: u32, lv: u64) -> (r: u64)
    requires
        lv <= 100000,
    ensures
        r == grading_diag_w(q as int, lv as int),
        r <= 200000000,
{
    let qc: i64 = if q > 2000 {
        2000
    } else {
        q as i64
    };
    proof {
        assert(-1000 * 100000 <= (qc - 1000) * (lv as int) <= 1000 * 100000)
            by (nonlinear_arith)
            requires -1000 <= qc - 1000 <= 1000 && 0 <= lv <= 100000,
        ;
    }
    (100000000 + (qc - 1000) * (lv as i64)) as u64
}

fn grading_off(q: u32, lv: u64) -> (r: u64)
    requires
        lv <= 100000,
    ensures
        r == grading_off_w(q as int, lv as int),
        r <= 200000000,
{
    let qc: u64 = if q > 2000 {
        2000
    } else {
        q as u64
    };
    proof {
        vstd::arithmetic::mul::lemma_mul_upper_bound(qc as int, 2000, lv as int, 100000);
    }
    qc * lv
}

fn grading_rgb(r: u8, g: u8, b: u8, pm: i32, m: &GradingMatrix) -> (v: (u8, u8, u8))
    ensures
        ({
            let lv = clip(pm as int, 0, 100000);
            let w0 = grading_weights(*m, 0, lv);
            let w1 = grading_weights(*m, 1, lv);
            let w2 = grading_weights(*m, 2, lv);
            v.0 == clip(weighted_s(w0.0, w0.1, w0.2, r, g, b, 50000000), 0, 255) as u8
                && v.1 == clip(weighted_s(w1.0, w1.1, w1.2, r, g, b, 50000000), 0, 255) as u8
                && v.2 == clip(weighted_s(w2.0, w2.1, w2.2, r, g, b, 50000000), 0, 255) as u8
        }),
{
    let lv: u64 = if pm < 0 {
        0
    } else if pm > 100000 {
        100000
    } else {
        pm as u64
    };
    let tr = weighted_sum(
        grading_diag(m.m00, lv),
        grading_off(m.m01, lv),
        grading_off(m.m02, lv),
        r, g, b,
        50000000,
    );
    let tg = weighted_sum(
        grading_off(m.m10, lv),
        grading_diag(m.m11, lv),
        grading_off(m.m12, lv),
        r, g, b,
        50000000,
    );
    let tb = weighted_sum(
        grading_off(m.m20, lv),
        grading_off(m.m21, lv),
        grading_diag(m.m22, lv),
        r, g, b,
        50000000,
    );
    (tr, tg, tb)
}

/// Runs the color-grading transform over a flat RGBA buffer.
pub(crate) fn grading_map(data: &Vec<u8>, pm: i32, m: &GradingMatrix) -> (r: Vec<u8>)
    requires
        data@.len() % 4 == 0,
    ensures
        r@ == grading_data(data@, pm as int, *m),
{
    let mut out: Vec<u8> = Vec::new();
    let n = data.len() / 4;
    proof {
        lemma_fundamental_div_mod(data@.len() as int, 4);
    }
    let mut p: usize = 0;
    while p < n
        invariant
            p <= n,
            n <= usize::MAX / 4,
            4 * n == data@.len(),
            out@.len() == 4 * p,
            forall|j: int| 0 <= j < 4 * p ==> out@[j] == grading_at(data@, pm as int, *m, j),
        decreases n - p,
    {
        let cr = data[4 * p];
        let cg = data[4 * p + 1];
        let cb = data[4 * p + 2];
        let ca = data[4 * p + 3];
        let (tr, tg, tb) = grading_rgb(cr, cg, cb, pm, m);
        out.push(tr);
        out.push(tg);
        out.push(tb);
        out.push(ca);
        proof {
            lemma_pixel_index(p as int, 0);
            lemma_pixel_index(p as int, 1);
            lemma_pixel_index(p as int, 2);
            lemma_pixel_index(p as int, 3);
        }
        p = p + 1;
    }
    proof {
        assert(out@ =~= grading_data(data@, pm as int, *m));
    }
    out
}

} // verus!
