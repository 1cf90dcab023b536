//! Negotiation of the output size of rendered frames.

use vstd::prelude::*;

verus! {

/// Smallest target width the pipeline renders for.
pub const MIN_TARGET_WIDTH: u32 = 160;

/// Smallest target height the pipeline renders for.
pub const MIN_TARGET_HEIGHT: u32 = 90;

/// Target width of a pipeline before its consumer has asked for one.
pub const INITIAL_TARGET_WIDTH: u32 = 640;

/// Target height of a pipeline before its consumer has asked for one.
pub const INITIAL_TARGET_HEIGHT: u32 = 360;

/// The pixel size of the source as the engine reports it.
#[derive(Debug, Clone, Copy, PartialEq, Eq, Structural)]
pub struct NativeSize {
    pub width: i64,
    pub height: i64,
}

impl NativeSize {
    /// Both dimensions are positive.
    pub open spec fn wf(&self) -> bool {
        self.width > 0 && self.height > 0
    }

    /// A native size from two reported dimensions; `None` unless both are
    /// positive.
    pub fn new(width: i64, height: i64) -> (size: Option<NativeSize>)
        ensures
            size.is_some() == (width > 0 && height > 0),
            size matches Some(s) ==> s.wf() && s.width == width && s.height == height,
    {
        if width > 0 && height > 0 {
            Some(NativeSize { width, height })
        } else {
            None
        }
    }
}

/// The size frames are rendered at.
#[derive(Debug, Clone, Copy, PartialEq, Eq, Structural)]
pub struct RenderSize {
    pub width: u32,
    pub height: u32,
}

/// The larger of two integers.
pub open spec fn max_int(a: int, b: int) -> int {
    if a >= b {
        a
    } else {
        b
    }
}

/// `x` raised to at least 2 and then lowered to an even number.
pub open spec fn even_at_least_two(x: int) -> int {
    max_int(x, 2) - max_int(x, 2) % 2
}

/// The native size scaled by the largest factor, at most 1, under which it
/// fits a box of `tw` by `th`; the scaled side that is not bound by the box
/// is rounded down.
pub open spec fn scaled_to_box(native: NativeSize, tw: int, th: int) -> (int, int) {
    if tw >= native.width && th >= native.height {
        (native.width as int, native.height as int)
    } else if tw * native.height <= th * native.width {
        (tw, (native.height * tw) / (native.width as int))
    } else {
        ((native.width * th) / (native.height as int), th)
    }
}

/// The render size for a source of size `native` and a consumer that asks
/// for `target_w` by `target_h`: the target is raised to the minimum, the
/// source is scaled into it without enlarging, and both sides are made even.
pub open spec fn fitted(native: NativeSize, target_w: u32, target_h: u32) -> (int, int) {
    let tw = max_int(target_w as int, MIN_TARGET_WIDTH as int);
    let th = max_int(target_h as int, MIN_TARGET_HEIGHT as int);
    let (w, h) = scaled_to_box(native, tw, th);
    (even_at_least_two(w), even_at_least_two(h))
}

/// The scaled size lies inside the box and inside the native size, and
/// keeps the native aspect ratio up to the rounding of one side.
pub proof fn lemma_scaled_to_box(native: NativeSize, tw: int, th: int)
    requires
        native.wf(),
        tw > 0,
        th > 0,
    ensures
        0 <= scaled_to_box(native, tw, th).0 <= tw,
        0 <= scaled_to_box(native, tw, th).1 <= th,
        scaled_to_box(native, tw, th).0 <= native.width,
        scaled_to_box(native, tw, th).1 <= native.height,
        ({
            let (w, h) = scaled_to_box(native, tw, th);
            let cross = w * native.height - h * native.width;
            -native.height < cross < native.width
        }),
{
    let nw = native.width as int;
    let nh = native.height as int;
    if tw >= nw && th >= nh {
        assert(nw * nh - nh * nw == 0) by (nonlinear_arith);
    } else if tw * nh <= th * nw {
        let h = (nh * tw) / nw;
        assert(0 <= h && h * nw <= nh * tw && nh * tw < h * nw + nw) by (nonlinear_arith)
            requires
                h == (nh * tw) / nw,
                nw > 0,
                nh > 0,
                tw > 0,
        ;
        assert(tw * nh == nh * tw) by (nonlinear_arith);
        assert(h <= th) by (nonlinear_arith)
            requires
                h * nw <= th * nw,
                nw > 0,
        ;
        assert(tw < nw) by (nonlinear_arith)
            requires
                tw * nh <= th * nw,
                !(tw >= nw && th >= nh),
                nw > 0,
                nh > 0,
                tw > 0,
                th > 0,
        ;
        assert(h <= nh) by (nonlinear_arith)
            requires
                h * nw <= nh * tw,
                tw < nw,
                nw > 0,
                nh > 0,
                h >= 0,
        ;
    } else {
        let w = (nw * th) / nh;
        assert(0 <= w && w * nh <= nw * th && nw * th < w * nh + nh) by (nonlinear_arith)
            requires
                w == (nw * th) / nh,
                nw > 0,
                nh > 0,
                th > 0,
        ;
        assert(th * nw == nw * th) by (nonlinear_arith);
        assert(w <= tw) by (nonlinear_arith)
            requires
                w * nh <= th * nw,
                th * nw < tw * nh,
                nh > 0,
        ;
        assert(th < nh) by (nonlinear_arith)
            requires
                th * nw < tw * nh,
                !(tw >= nw && th >= nh),
                nw > 0,
                nh > 0,
                tw > 0,
                th > 0,
        ;
        assert(w <= nw) by (nonlinear_arith)
            requires
                w * nh <= nw * th,
                th < nh,
                nw > 0,
                nh > 0,
                w >= 0,
        ;
    }
}

/// The fitted size has even sides of at least 2, lies inside the target
/// raised to the minimum, and exceeds the native size on no side that is
/// at least 2 pixels long.
pub proof fn lemma_fitted_within_target(native: NativeSize, target_w: u32, target_h: u32)
    requires
        native.wf(),
    ensures
        fitted(native, target_w, target_h).0 % 2 == 0,
        fitted(native, target_w, target_h).1 % 2 == 0,
        2 <= fitted(native, target_w, target_h).0 <= max_int(
            target_w as int,
            MIN_TARGET_WIDTH as int,
        ),
        2 <= fitted(native, target_w, target_h).1 <= max_int(
            target_h as int,
            MIN_TARGET_HEIGHT as int,
        ),
        fitted(native, target_w, target_h).0 <= max_int(native.width as int, 2),
        fitted(native, target_w, target_h).1 <= max_int(native.height as int, 2),
{
    let tw = max_int(target_w as int, MIN_TARGET_WIDTH as int);
    let th = max_int(target_h as int, MIN_TARGET_HEIGHT as int);
    lemma_scaled_to_box(native, tw, th);
}

/// Rounds a scaled side to an even number of at least 2.
fn make_even(x: u64) -> (r: u32)
    requires
        x <= u32::MAX,
    ensures
        r == even_at_least_two(x as int),
{
    let m: u64 = if x < 2 {
        2
    } else {
        x
    };
    (m - m % 2) as u32
}

/// Computes the size to render at for a source of size `native` when the
/// consumer asks for `target_w` by `target_h`.
pub fn fit_render_size(native: &NativeSize, target_w: u32, target_h: u32) -> (size: RenderSize)
    requires
        native.wf(),
    ensures
        (size.width as int, size.height as int) == fitted(*native, target_w, target_h),
{
    let tw: i128 = if target_w < MIN_TARGET_WIDTH {
        MIN_TARGET_WIDTH as i128
    } else {
        target_w as i128
    };
    let th: i128 = if target_h < MIN_TARGET_HEIGHT {
        MIN_TARGET_HEIGHT as i128
    } else {
        target_h as i128
    };
    let nw: i128 = native.width as i128;
    let nh: i128 = native.height as i128;
    proof {
        lemma_scaled_to_box(*native, tw as int, th as int);
        assert(0 < tw * nh <= 0xffff_ffff * 0x7fff_ffff_ffff_ffff) by (nonlinear_arith)
            requires
                0 < tw <= 0xffff_ffff,
                0 < nh <= 0x7fff_ffff_ffff_ffff,
        ;
        assert(0 < th * nw <= 0xffff_ffff * 0x7fff_ffff_ffff_ffff) by (nonlinear_arith)
            requires
                0 < th <= 0xffff_ffff,
                0 < nw <= 0x7fff_ffff_ffff_ffff,
        ;
        assert(nh * tw == tw * nh && nw * th == th * nw) by (nonlinear_arith);
    }
    let (w, h): (i128, i128) = if tw >= nw && th >= nh {
        (nw, nh)
    } else if tw * nh <= th * nw {
        (tw, (nh * tw) / nw)
    } else {
        ((nw * th) / nh, th)
    };
    RenderSize { width: make_even(w as u64), height: make_even(h as u64) }
}

} // verus!
