//! Output dimensions for a resize request.
//!
//! Scaling is computed exactly over the integers: a scaled length is the
//! quotient `len * num / den` rounded to the nearest integer, halves away from
//! zero, and capped at `u32::MAX`. A zero denominator (a source axis of length
//! zero) yields zero.

use vstd::prelude::*;

verus! {

/// `len * num / den` rounded half away from zero; zero when `den` is zero.
pub open spec fn rounded_quotient(len: int, num: int, den: int) -> int {
    if den == 0 {
        0
    } else {
        (2 * len * num + den) / (2 * den)
    }
}

/// A length scaled by `num / den`, as a pixel count.
pub open spec fn scaled_length(len: u32, num: u32, den: u32) -> u32 {
    let q = rounded_quotient(len as int, num as int, den as int);
    if q > u32::MAX {
        u32::MAX
    } else {
        q as u32
    }
}

/// Whether the width ratio `target_w / orig_w` is the tighter of the two
/// requested ratios (or the only one that is defined).
pub open spec fn width_is_tighter(orig_w: u32, orig_h: u32, target_w: u32, target_h: u32) -> bool {
    orig_w != 0 && (orig_h == 0 || target_w * orig_h <= target_h * orig_w)
}

/// The dimension policy. The first matching rule wins:
/// both targets without aspect lock give exactly the targets; both targets with
/// aspect lock scale both axes by the tighter ratio; one target scales the other
/// axis by that target's ratio; no target leaves the dimensions unchanged.
pub open spec fn new_dimensions(
    orig_w: u32,
    orig_h: u32,
    target_w: Option<u32>,
    target_h: Option<u32>,
    maintain_aspect: bool,
) -> (u32, u32) {
    match (target_w, target_h) {
        (Some(w), Some(h)) => if !maintain_aspect {
            (w, h)
        } else if width_is_tighter(orig_w, orig_h, w, h) {
            (scaled_length(orig_w, w, orig_w), scaled_length(orig_h, w, orig_w))
        } else {
            (scaled_length(orig_w, h, orig_h), scaled_length(orig_h, h, orig_h))
        },
        (Some(w), None) => (w, scaled_length(orig_h, w, orig_w)),
        (None, Some(h)) => (scaled_length(orig_w, h, orig_h), h),
        (None, None) => (orig_w, orig_h),
    }
}

/// The product of two 32-bit lengths fits in 64 bits.
pub proof fn lemma_product_bound(a: u32, b: u32)
    ensures
        0 <= a * b <= 0xFFFF_FFFE_0000_0001,
{
    assert(0 <= a * b <= 0xFFFF_FFFF * 0xFFFF_FFFF) by (nonlinear_arith)
        requires
            0 <= a <= 0xFFFF_FFFF,
            0 <= b <= 0xFFFF_FFFF,
    ;
}

/// Scales `len` by `num / den`.
pub fn scale(len: u32, num: u32, den: u32) -> (out: u32)
    ensures
        out == scaled_length(len, num, den),
{
    if den == 0 {
        return 0;
    }
    proof {
        lemma_product_bound(len, num);
        assert(2 * len * num == 2 * (len * num)) by (nonlinear_arith);
    }
    let product: u128 = (len as u128) * (num as u128);
    let q: u128 = (2 * product + (den as u128)) / (2 * (den as u128));
    if q > u32::MAX as u128 {
        u32::MAX
    } else {
        q as u32
    }
}

/// Computes the output dimensions for an image of `orig_w` by `orig_h` pixels.
pub fn calculate_new_dimensions(
    orig_w: u32,
    orig_h: u32,
    target_w: Option<u32>,
    target_h: Option<u32>,
    maintain_aspect: bool,
) -> (dims: (u32, u32))
    ensures
        dims == new_dimensions(orig_w, orig_h, target_w, target_h, maintain_aspect),
{
    match (target_w, target_h) {
        (Some(w), Some(h)) => {
            if !maintain_aspect {
                (w, h)
            } else {
                proof {
                    lemma_product_bound(w, orig_h);
                    lemma_product_bound(h, orig_w);
                }
                let by_width = orig_w != 0 && (orig_h == 0 || (w as u64) * (orig_h as u64) <= (h
                    as u64) * (orig_w as u64));
                if by_width {
                    (scale(orig_w, w, orig_w), scale(orig_h, w, orig_w))
                } else {
                    (scale(orig_w, h, orig_h), scale(orig_h, h, orig_h))
                }
            }
        },
        (Some(w), None) => (w, scale(orig_h, w, orig_w)),
        (None, Some(h)) => (scale(orig_w, h, orig_h), h),
        (None, None) => (orig_w, orig_h),
    }
}

/// Scaling a length by a ratio whose denominator is that length gives the numerator.
pub proof fn lemma_scale_by_own_length(len: u32, num: u32)
    requires
        len != 0,
    ensures
        scaled_length(len, num, len) == num,
{
    let x = len as int;
    let n = num as int;
    assert((2 * x * n + x) / (2 * x) == n) by (nonlinear_arith)
        requires
            x > 0,
            n >= 0,
    ;
}

/// Scaling by a ratio of one changes nothing.
pub proof fn lemma_scale_by_one(len: u32, unit: u32)
    requires
        unit != 0,
    ensures
        scaled_length(len, unit, unit) == len,
{
    let x = unit as int;
    let n = len as int;
    assert((2 * n * x + x) / (2 * x) == n) by (nonlinear_arith)
        requires
            x > 0,
            n >= 0,
    ;
}

/// A length of zero, or a ratio of zero, scales to zero.
pub proof fn lemma_scale_zero(len: u32, num: u32, den: u32)
    requires
        len == 0 || num == 0,
    ensures
        scaled_length(len, num, den) == 0,
{
    if den != 0 {
        let d = den as int;
        assert(2 * (len as int) * (num as int) == 0) by (nonlinear_arith)
            requires
                len == 0 || num == 0,
        ;
        assert(d / (2 * d) == 0) by (nonlinear_arith)
            requires
                d > 0,
        ;
    }
}

/// A scaled length differs from the exact quotient by at most half a unit.
pub proof fn lemma_scale_is_nearest(len: u32, num: u32, den: u32)
    requires
        den != 0,
    ensures
        ({
            let q = rounded_quotient(len as int, num as int, den as int);
            &&& 0 <= q
            &&& 2 * q * den - den <= 2 * len * num < 2 * q * den + den
        }),
{
    let l = len as int;
    let n = num as int;
    let d = den as int;
    let t = 2 * l * n + d;
    let q = t / (2 * d);
    assert(t >= 0) by (nonlinear_arith)
        requires
            t == 2 * l * n + d,
            l >= 0,
            n >= 0,
            d > 0,
    ;
    assert(0 <= q && (2 * d) * q <= t < (2 * d) * q + 2 * d) by (nonlinear_arith)
        requires
            q == t / (2 * d),
            d > 0,
            t >= 0,
    ;
    assert((2 * d) * q == 2 * q * d) by (nonlinear_arith);
}

/// A scaled length does not exceed `cap` when the exact quotient does not.
pub proof fn lemma_scale_within(len: u32, num: u32, den: u32, cap: u32)
    requires
        den != 0,
        len * num <= cap * den,
    ensures
        rounded_quotient(len as int, num as int, den as int) <= cap,
        scaled_length(len, num, den) <= cap,
{
    lemma_scale_is_nearest(len, num, den);
    let q = rounded_quotient(len as int, num as int, den as int);
    let d = den as int;
    let c = cap as int;
    let ln = len as int * num as int;
    assert(2 * (len as int) * (num as int) == 2 * ln) by (nonlinear_arith)
        requires
            ln == len as int * num as int,
    ;
    assert(q <= c) by (nonlinear_arith)
        requires
            2 * q * d - d <= 2 * ln,
            ln <= c * d,
            d > 0,
    ;
}

/// Applying the policy to its own output, with the same targets and the same
/// aspect lock, changes nothing.
pub proof fn lemma_calculate_idempotent(
    orig_w: u32,
    orig_h: u32,
    target_w: Option<u32>,
    target_h: Option<u32>,
    maintain_aspect: bool,
)
    ensures
        ({
            let once = new_dimensions(orig_w, orig_h, target_w, target_h, maintain_aspect);
            new_dimensions(once.0, once.1, target_w, target_h, maintain_aspect) == once
        }),
{
    let once = new_dimensions(orig_w, orig_h, target_w, target_h, maintain_aspect);
    match (target_w, target_h) {
        (Some(w), Some(h)) => {
            if maintain_aspect {
                if width_is_tighter(orig_w, orig_h, w, h) {
                    lemma_scale_by_own_length(orig_w, w);
                    assert(once.0 == w);
                    if orig_h == 0 {
                        lemma_scale_zero(orig_h, w, orig_w);
                    } else {
                        assert(orig_h * w == w * orig_h) by (nonlinear_arith);
                        lemma_scale_within(orig_h, w, orig_w, h);
                    }
                    assert(once.1 <= h);
                    if w == 0 {
                        lemma_scale_zero(orig_h, w, orig_w);
                        lemma_scale_zero(once.0, h, once.1);
                        lemma_scale_zero(once.1, h, once.1);
                    } else {
                        assert(w * once.1 <= h * w) by (nonlinear_arith)
                            requires
                                once.1 <= h,
                        ;
                        assert(width_is_tighter(once.0, once.1, w, h));
                        lemma_scale_by_one(once.0, w);
                        lemma_scale_by_one(once.1, w);
                    }
                } else if orig_h == 0 {
                    lemma_scale_zero(orig_w, h, orig_h);
                    lemma_scale_zero(orig_h, h, orig_h);
                    assert(once == (0u32, 0u32));
                } else {
                    lemma_scale_by_own_length(orig_h, h);
                    assert(once.1 == h);
                    if orig_w == 0 {
                        lemma_scale_zero(orig_w, h, orig_h);
                    } else {
                        assert(orig_w * h == h * orig_w) by (nonlinear_arith);
                        lemma_scale_within(orig_w, h, orig_h, w);
                    }
                    assert(once.0 <= w);
                    if h == 0 {
                        lemma_scale_zero(orig_w, h, orig_h);
                        assert(once == (0u32, 0u32));
                        lemma_scale_zero(0, h, 0);
                    } else if width_is_tighter(once.0, once.1, w, h) {
                        assert(w <= once.0) by (nonlinear_arith)
                            requires
                                w * h <= h * once.0,
                                h > 0,
                        ;
                        lemma_scale_by_one(once.0, w);
                        lemma_scale_by_one(h, w);
                    } else {
                        lemma_scale_by_one(once.0, h);
                        lemma_scale_by_one(h, h);
                    }
                }
            }
        },
        (Some(w), None) => {
            if w == 0 {
                lemma_scale_zero(orig_h, w, orig_w);
                lemma_scale_zero(once.1, w, w);
            } else {
                lemma_scale_by_one(once.1, w);
            }
        },
        (None, Some(h)) => {
            if h == 0 {
                lemma_scale_zero(orig_w, h, orig_h);
                lemma_scale_zero(once.0, h, h);
            } else {
                lemma_scale_by_one(once.0, h);
            }
        },
        (None, None) => {},
    }
}

/// With aspect lock and both targets set, on a source that is not empty on
/// both axes, the result fits inside the requested box, meets the target
/// exactly on the axis whose ratio is the tighter one, and on the other axis
/// lies within half a pixel of the exactly scaled length.
pub proof fn lemma_locked_fit(orig_w: u32, orig_h: u32, target_w: u32, target_h: u32)
    requires
        orig_w != 0 || orig_h != 0,
    ensures
        ({
            let fit = new_dimensions(orig_w, orig_h, Some(target_w), Some(target_h), true);
            &&& fit.0 <= target_w
            &&& fit.1 <= target_h
            &&& width_is_tighter(orig_w, orig_h, target_w, target_h) ==> {
                &&& fit.0 == target_w
                &&& 2 * fit.1 * orig_w - orig_w <= 2 * orig_h * target_w < 2 * fit.1 * orig_w
                    + orig_w
            }
            &&& !width_is_tighter(orig_w, orig_h, target_w, target_h) ==> {
                &&& fit.1 == target_h
                &&& 2 * fit.0 * orig_h - orig_h <= 2 * orig_w * target_h < 2 * fit.0 * orig_h
                    + orig_h
            }
        }),
{
    if width_is_tighter(orig_w, orig_h, target_w, target_h) {
        lemma_scale_by_own_length(orig_w, target_w);
        if orig_h == 0 {
            lemma_scale_zero(orig_h, target_w, orig_w);
            assert(2 * orig_h * target_w == 0) by (nonlinear_arith)
                requires
                    orig_h == 0,
            ;
        } else {
            assert(orig_h * target_w == target_w * orig_h) by (nonlinear_arith);
            lemma_scale_within(orig_h, target_w, orig_w, target_h);
        }
        lemma_scale_is_nearest(orig_h, target_w, orig_w);
    } else {
        lemma_scale_by_own_length(orig_h, target_h);
        if orig_w == 0 {
            lemma_scale_zero(orig_w, target_h, orig_h);
            assert(2 * orig_w * target_h == 0) by (nonlinear_arith)
                requires
                    orig_w == 0,
            ;
        } else {
            assert(orig_w * target_h == target_h * orig_w) by (nonlinear_arith);
            lemma_scale_within(orig_w, target_h, orig_h, target_w);
        }
        lemma_scale_is_nearest(orig_w, target_h, orig_h);
    }
}

} // verus!
