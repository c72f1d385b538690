//! Blur: iterated separable binomial smoothing over the pixel grid, the
//! classic integer approximation of a Gaussian. The number of passes grows
//! with the square of the percent so that the effective radius ramps
//! linearly from zero to about three pixels at full strength; edges are
//! replicated; all four channels are smoothed.

use vstd::prelude::*;
use vstd::arithmetic::div_mod::lemma_fundamental_div_mod;
use vstd::arithmetic::div_mod::lemma_fundamental_div_mod_converse;
use crate::pixels::clip;
use crate::pixels::lemma_pixel_index;

verus! {

/// Byte `i` after one three-tap `[1, 2, 1] / 4` pass along one axis
/// (`vert` false: along the row; true: along the column), edges replicated.
pub open spec fn blur_axis_at(data: Seq<u8>, w: int, h: int, vert: bool, i: int) -> u8 {
    let p = i / 4;
    let c = i % 4;
    let x = p % w;
    let y = p / w;
    let pa = if vert {
        if y == 0 {
            p
        } else {
            p - w
        }
    } else {
        if x == 0 {
            p
        } else {
            p - 1
        }
    };
    let pb = if vert {
        if y + 1 < h {
            p + w
        } else {
            p
        }
    } else {
        if x + 1 < w {
            p + 1
        } else {
            p
        }
    };
    ((data[4 * pa + c] + 2 * data[i] + data[4 * pb + c] + 2) / 4) as u8
}

pub open spec fn blur_axis_data(data: Seq<u8>, w: int, h: int, vert: bool) -> Seq<u8> {
    Seq::new(data.len(), |i: int| blur_axis_at(data, w, h, vert, i))
}

/// One full smoothing pass: along rows, then along columns.
pub open spec fn blur_once(data: Seq<u8>, w: int, h: int) -> Seq<u8> {
    blur_axis_data(blur_axis_data(data, w, h, false), w, h, true)
}

/// `n` full smoothing passes.
pub open spec fn blurred_s(data: Seq<u8>, w: int, h: int, n: nat) -> Seq<u8>
    decreases n,
{
    if n == 0 {
        data
    } else {
        blur_once(blurred_s(data, w, h, (n - 1) as nat), w, h)
    }
}

/// How many passes a blur percent asks for: `round(18 * (percent/100)^2)`,
/// zero at the neutral percent, 18 at full strength (an effective Gaussian
/// radius of about three pixels).
pub open spec fn blur_passes_s(pm: int) -> nat {
    ((18 * clip(pm, 0, 100000) * clip(pm, 0, 100000) + 5000000000) / 10000000000) as nat
}

pub(crate) fn blur_passes(pm: i32) -> (r: u32)
    ensures
        r as nat == blur_passes_s(pm as int),
        r <= 18,
{
    let lv: u64 = if pm < 0 {
        0
    } else if pm > 100000 {
        100000
    } else {
        pm as u64
    };
    proof {
        assert(18 * lv * lv <= 180000000000) by (nonlinear_arith)
            requires lv <= 100000,
        ;
    }
    ((18 * lv * lv + 5000000000) / 10000000000) as u32
}

/// One `[1, 2, 1] / 4` pass along one axis of the pixel grid.
#[verifier::rlimit(60)]
fn blur_axis(data: &Vec<u8>, w: u32, h: u32, vert: bool) -> (r: Vec<u8>)
    requires
        data@.len() == 4 * (w as nat) * (h as nat),
    ensures
        r@ == blur_axis_data(data@, w as int, h as int, vert),
{
    let mut out: Vec<u8> = Vec::new();
    proof {
        assert(4 * (w as nat) * (h as nat) == 4 * ((w as nat) * (h as nat))) by (nonlinear_arith);
    }
    let n = data.len() / 4;
    proof {
        lemma_fundamental_div_mod(data@.len() as int, 4);
        vstd::arithmetic::div_mod::lemma_mod_multiples_basic((w as int) * (h as int), 4);
        assert(n == (w as int) * (h as int));
    }
    let mut p: usize = 0;
    while p < n
        invariant
            p <= n,
            n <= usize::MAX / 4,
            n == (w as int) * (h as int),
            4 * n == data@.len(),
            out@.len() == 4 * p,
            forall|j: int|
                0 <= j < 4 * p ==> out@[j] == blur_axis_at(data@, w as int, h as int, vert, j),
        decreases n - p,
    {
        proof {
            if w == 0 || h == 0 {
                assert((w as int) * (h as int) == 0) by (nonlinear_arith)
                    requires w == 0 || h == 0,
                ;
            }
        }
        let x = p % (w as usize);
        let y = p / (w as usize);
        proof {
            lemma_fundamental_div_mod(p as int, w as int);
            assert((y as int) < h && ((y as int) >= 1 ==> p as int >= w) && (((x as int) + 1 < w)
                ==> (p as int) + 1 < (w as int) * (h as int)) && (((y as int) + 1 < h) ==> (
            p as int) + w < (w as int) * (h as int)))
                by (nonlinear_arith)
                requires
                    p as int == (w as int) * (y as int) + (x as int),
                    0 <= (x as int) < (w as int),
                    (p as int) < (w as int) * (h as int),
                    1 <= w,
            ;
        }
        let pa: usize = if vert {
            if y == 0 {
                p
            } else {
                p - (w as usize)
            }
        } else {
            if x == 0 {
                p
            } else {
                p - 1
            }
        };
        let pb: usize = if vert {
            if y + 1 < (h as usize) {
                p + (w as usize)
            } else {
                p
            }
        } else {
            if x + 1 < (w as usize) {
                p + 1
            } else {
                p
            }
        };
        proof {
            assert(pa < n);
            assert(pb < n);
        }
        let mut c: usize = 0;
        while c < 4
            invariant
                c <= 4,
                p < n,
                pa < n,
                pb < n,
                n <= usize::MAX / 4,
                n == (w as int) * (h as int),
                4 * n == data@.len(),
                out@.len() == 4 * p + c,
                forall|j: int|
                    0 <= j < 4 * p ==> out@[j] == blur_axis_at(data@, w as int, h as int, vert, j),
                forall|j: int|
                    4 * p <= j < 4 * p + c ==> out@[j] == blur_axis_at(
                        data@,
                        w as int,
                        h as int,
                        vert,
                        j,
                    ),
                pa as int == ({
                    let xx = (p as int) % (w as int);
                    let yy = (p as int) / (w as int);
                    if vert {
                        if yy == 0 {
                            p as int
                        } else {
                            p - w
                        }
                    } else {
                        if xx == 0 {
                            p as int
                        } else {
                            p - 1
                        }
                    }
                }),
                pb as int == ({
                    let xx = (p as int) % (w as int);
                    let yy = (p as int) / (w as int);
                    if vert {
                        if yy + 1 < h {
                            p + w
                        } else {
                            p as int
                        }
                    } else {
                        if xx + 1 < w {
                            p + 1
                        } else {
                            p as int
                        }
                    }
                }),
            decreases 4 - c,
        {
            let a = data[4 * pa + c];
            let m = data[4 * p + c];
            let b = data[4 * pb + c];
            let v = (((a as u32) + 2 * (m as u32) + (b as u32) + 2) / 4) as u8;
            out.push(v);
            proof {
                lemma_pixel_index(p as int, c as int);
            }
            c = c + 1;
        }
        p = p + 1;
    }
    proof {
        assert(out@ =~= blur_axis_data(data@, w as int, h as int, vert));
    }
    out
}

/// Runs the full blur over a flat RGBA buffer: `blur_passes_s(pm)` separable
/// binomial passes.
pub(crate) fn blur_map(data: &Vec<u8>, w: u32, h: u32, pm: i32) -> (r: Vec<u8>)
    requires
        data@.len() == 4 * (w as nat) * (h as nat),
    ensures
        r@ == blurred_s(data@, w as int, h as int, blur_passes_s(pm as int)),
        r@.len() == data@.len(),
{
    let total = blur_passes(pm);
    let mut cur = data.clone();
    let mut k: u32 = 0;
    while k < total
        invariant
            k <= total,
            total as nat == blur_passes_s(pm as int),
            cur@ == blurred_s(data@, w as int, h as int, k as nat),
            cur@.len() == data@.len(),
            data@.len() == 4 * (w as nat) * (h as nat),
        decreases total - k,
    {
        let a = blur_axis(&cur, w, h, false);
        let b = blur_axis(&a, w, h, true);
        cur = b;
        k = k + 1;
    }
    cur
}

} // verus!
