//! The width limit and the arithmetic that keeps an image's aspect ratio.

use vstd::prelude::*;

verus! {

/// Widest image, in pixels, that is passed on without resampling.
pub const MAX_WIDTH: u32 = 1024;

/// The height that goes with `MAX_WIDTH` for an image of `width` by
/// `height` pixels: `height * MAX_WIDTH / width`, rounded down.
pub open spec fn scaled_height(width: nat, height: nat) -> nat
    recommends
        width > 0,
{
    (height * MAX_WIDTH as nat) / width
}

/// The height to which an image wider than `MAX_WIDTH` is resampled:
/// `scaled_height`, but one where that is zero, since an image has no side
/// shorter than one pixel.
pub open spec fn target_height(width: nat, height: nat) -> nat
    recommends
        width > 0,
{
    if scaled_height(width, height) == 0 {
        1
    } else {
        scaled_height(width, height)
    }
}

/// What is to be done with an image before it is encoded.
#[derive(Clone, Copy, Debug, PartialEq, Eq, Structural)]
pub enum Plan {
    /// The image is narrow enough and goes on untouched.
    Keep,
    /// The image is resampled to exactly `width` by `height` pixels.
    Shrink { width: u32, height: u32 },
}

/// The plan for an image of `width` by `height` pixels: wider than
/// `MAX_WIDTH`, it is shrunk to that width and to `target_height`;
/// otherwise it is kept. No image is ever made wider.
pub open spec fn plan_of(width: u32, height: u32) -> Plan {
    if width > MAX_WIDTH {
        Plan::Shrink {
            width: MAX_WIDTH,
            height: target_height(width as nat, height as nat) as u32,
        }
    } else {
        Plan::Keep
    }
}

/// The size that `plan` asks for, for an image of `width` by `height`.
pub open spec fn planned_size(width: u32, height: u32) -> (u32, u32) {
    match plan_of(width, height) {
        Plan::Keep => (width, height),
        Plan::Shrink { width: w, height: h } => (w, h),
    }
}

/// `scaled_height` is the floor of the exact quotient, and never exceeds
/// the height it started from when the image is at least `MAX_WIDTH` wide.
pub proof fn lemma_scaled_height_floor(width: nat, height: nat)
    requires
        width > 0,
    ensures
        scaled_height(width, height) * width <= height * MAX_WIDTH,
        height * MAX_WIDTH < (scaled_height(width, height) + 1) * width,
        width >= MAX_WIDTH ==> scaled_height(width, height) <= height,
{
    let n = height * MAX_WIDTH as nat;
    let q = n / width;
    assert(q * width <= n && n < (q + 1) * width) by (nonlinear_arith)
        requires
            width > 0,
            q == n / width,
    ;
    if width >= MAX_WIDTH {
        assert(q <= height) by (nonlinear_arith)
            requires
                q * width <= height * 1024,
                width >= 1024,
                q >= 0,
                height >= 0,
        ;
    }
}

/// An image that is at most `MAX_WIDTH` wide is kept: the size planned
/// for it is its own.
pub proof fn lemma_narrow_image_is_kept(width: u32, height: u32)
    requires
        width <= MAX_WIDTH,
    ensures
        plan_of(width, height) == Plan::Keep,
        planned_size(width, height) == (width, height),
{
}

/// Whatever the image, the width planned for it is at most `MAX_WIDTH`
/// and at most its own, and the height planned for it is at most its own
/// or one pixel.
pub proof fn lemma_planned_size_is_bounded(width: u32, height: u32)
    ensures
        planned_size(width, height).0 <= MAX_WIDTH,
        planned_size(width, height).0 <= width,
        planned_size(width, height).1 <= height || planned_size(width, height).1 == 1,
{
    if width > MAX_WIDTH {
        lemma_scaled_height_floor(width as nat, height as nat);
    }
}

/// For an image wider than `MAX_WIDTH`, the planned width is `MAX_WIDTH`.
/// Where the image is not so flat that its height would vanish, the
/// planned height is `height * MAX_WIDTH / width` rounded down: the largest
/// height whose ratio to `MAX_WIDTH` does not exceed that of `height` to
/// `width`. Where it is, the planned height is one.
pub proof fn lemma_wide_image_keeps_aspect(width: u32, height: u32)
    requires
        width > MAX_WIDTH,
    ensures
        planned_size(width, height).0 == MAX_WIDTH,
        height * MAX_WIDTH >= width ==> {
            &&& planned_size(width, height).1 == (height * MAX_WIDTH) / (width as int)
            &&& planned_size(width, height).1 * width <= height * MAX_WIDTH
            &&& height * MAX_WIDTH < (planned_size(width, height).1 + 1) * width
        },
        height * MAX_WIDTH < width ==> planned_size(width, height).1 == 1,
{
    lemma_scaled_height_floor(width as nat, height as nat);
    let q = scaled_height(width as nat, height as nat);
    if height * MAX_WIDTH >= width {
        assert(q >= 1) by (nonlinear_arith)
            requires
                height * 1024 >= width,
                height * 1024 < (q + 1) * width,
                width > 0,
        ;
    } else {
        assert(q == 0) by (nonlinear_arith)
            requires
                q * width <= height * 1024,
                height * 1024 < width,
                q >= 0,
        ;
    }
}

/// Computes `scaled_height` for an image wider than `MAX_WIDTH`.
pub fn shrunk_height(width: u32, height: u32) -> (h: u32)
    requires
        width > MAX_WIDTH,
    ensures
        h == scaled_height(width as nat, height as nat),
        h <= height,
{
    proof {
        lemma_scaled_height_floor(width as nat, height as nat);
    }
    let scaled: u64 = (height as u64 * MAX_WIDTH as u64) / (width as u64);
    scaled as u32
}

/// Decides what is done with an image of `width` by `height` pixels.
pub fn plan(width: u32, height: u32) -> (p: Plan)
    ensures
        p == plan_of(width, height),
{
    if width > MAX_WIDTH {
        let scaled = shrunk_height(width, height);
        Plan::Shrink { width: MAX_WIDTH, height: if scaled == 0 { 1 } else { scaled } }
    } else {
        Plan::Keep
    }
}

} // verus!
