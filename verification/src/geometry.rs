//! Keeping the primary window at the aspect ratio it had at start-up.
//!
//! The ratio is held exactly, as the pair of integers it was captured from,
//! and every comparison is made by cross-multiplication. A pass compares the
//! ratios first and then corrects the dimension on the wrong side; it makes
//! no call only where the call would repeat the size.
use vstd::prelude::*;
use vstd::arithmetic::div_mod::lemma_fundamental_div_mod;
use vstd::arithmetic::div_mod::lemma_fundamental_div_mod_converse;

verus! {

/// The quotient `a / b` rounded to the nearest integer, halves rounded up.
/// Meant for `a >= 0` and `b > 0`.
pub open spec fn round_div(a: int, b: int) -> int {
    (2 * a + b) / (2 * b)
}

/// `round_div(a, b)` is the one integer `q` with `q - 1/2 <= a / b < q + 1/2`.
pub proof fn lemma_round_div_nearest(a: int, b: int)
    requires
        a >= 0,
        b > 0,
    ensures
        round_div(a, b) >= 0,
        2 * round_div(a, b) * b - b <= 2 * a < 2 * round_div(a, b) * b + b,
{
    let q = round_div(a, b);
    let r = (2 * a + b) % (2 * b);
    lemma_fundamental_div_mod(2 * a + b, 2 * b);
    assert(2 * a + b == (2 * b) * q + r);
    assert((2 * b) * q == 2 * q * b) by (nonlinear_arith);
    assert(q >= 0) by (nonlinear_arith)
        requires
            2 * a + b == 2 * q * b + r,
            r < 2 * b,
            b > 0,
            a >= 0,
    ;
}

/// Any integer `q` with `q - 1/2 <= a / b < q + 1/2` is `round_div(a, b)`.
pub proof fn lemma_round_div_unique(a: int, b: int, q: int)
    requires
        b > 0,
        2 * q * b - b <= 2 * a < 2 * q * b + b,
    ensures
        q == round_div(a, b),
{
    let r = 2 * a + b - 2 * q * b;
    assert(2 * a + b == q * (2 * b) + r) by (nonlinear_arith)
        requires
            r == 2 * a + b - 2 * q * b,
    ;
    lemma_fundamental_div_mod_converse(2 * a + b, 2 * b, q, r);
}

/// Divides and rounds to the nearest integer, halves up.
pub fn rounded_quotient(a: u64, b: u64) -> (q: u64)
    requires
        b > 0,
    ensures
        q == round_div(a as int, b as int),
{
    let whole: u64 = a / b;
    let rest: u64 = a % b;
    proof {
        lemma_fundamental_div_mod(a as int, b as int);
    }
    if rest >= b - rest {
        proof {
            // a half or more is left over only of a divisor of two or more,
            // so the quotient is at most half of `a`
            assert(2 * whole <= a) by (nonlinear_arith)
                requires
                    a == b * whole + rest,
                    rest >= b - rest,
                    rest < b,
                    whole >= 0,
            ;
            assert(2 * (whole + 1) * b - b <= 2 * a < 2 * (whole + 1) * b + b) by (nonlinear_arith)
                requires
                    a == b * whole + rest,
                    rest >= b - rest,
                    rest < b,
            ;
            lemma_round_div_unique(a as int, b as int, whole + 1);
        }
        whole + 1
    } else {
        proof {
            assert(2 * whole * b - b <= 2 * a < 2 * whole * b + b) by (nonlinear_arith)
                requires
                    a == b * whole + rest,
                    rest < b - rest,
                    rest >= 0,
            ;
            lemma_round_div_unique(a as int, b as int, whole as int);
        }
        whole
    }
}

/// The product of two pixel counts fits in 64 bits.
proof fn lemma_product_fits(a: u32, b: u32)
    ensures
        0 <= a * b <= u64::MAX,
{
    assert(0 <= a * b <= 0xFFFF_FFFF * 0xFFFF_FFFF) by (nonlinear_arith)
        requires
            0 <= a <= 0xFFFF_FFFF,
            0 <= b <= 0xFFFF_FFFF,
    ;
}

/// The size of a window's client area, in physical pixels.
#[derive(Clone, Copy, Debug, PartialEq, Eq, Structural)]
pub struct WindowGeometry {
    pub width: u32,
    pub height: u32,
}

/// The width that `target`'s ratio asks of a window of the given height,
/// rounded to a whole pixel.
pub open spec fn ideal_width(target: WindowGeometry, height: int) -> int {
    round_div(height * target.width, target.height as int)
}

/// The height that `target`'s ratio asks of a window of the given width,
/// rounded to a whole pixel. Meant for `target.width > 0`.
pub open spec fn ideal_height(target: WindowGeometry, width: int) -> int {
    round_div(width * target.height, target.width as int)
}

/// `size` is relatively wider than `target`: `size.width / size.height`
/// exceeds `target.width / target.height`.
pub open spec fn too_wide(target: WindowGeometry, size: WindowGeometry) -> bool {
    size.width * target.height > size.height * target.width
}

/// `size` is relatively taller than `target`.
pub open spec fn too_tall(target: WindowGeometry, size: WindowGeometry) -> bool {
    size.width * target.height < size.height * target.width
}

/// The distance of `size` from `target`'s ratio, as the cross product
/// `|size.width * target.height - size.height * target.width|`. Divided by
/// `target.height` it is how far the width is from the exact one, divided by
/// `target.width` how far the height is.
pub open spec fn ratio_gap(target: WindowGeometry, size: WindowGeometry) -> int {
    let across = size.width * target.height - size.height * target.width;
    if across >= 0 {
        across
    } else {
        -across
    }
}

/// One dimension of `size` is within half a pixel of what `target`'s ratio
/// asks for, given the other.
pub open spec fn within_rounding(target: WindowGeometry, size: WindowGeometry) -> bool {
    ||| 2 * ratio_gap(target, size) <= target.height
    ||| 2 * ratio_gap(target, size) <= target.width
}

/// The size a window of size `size` has after one corrective pass towards
/// `target`'s ratio, for `target.height > 0`.
///
/// A window without height has no ratio and is left alone. A window that is
/// too wide keeps its height and gets the ideal width; one that is too tall
/// keeps its width and gets the ideal height. A window of exactly the
/// target's ratio stays as it is.
pub open spec fn corrected(target: WindowGeometry, size: WindowGeometry) -> WindowGeometry {
    if size.height == 0 {
        size
    } else if too_wide(target, size) {
        WindowGeometry { width: ideal_width(target, size.height as int) as u32, height: size.height }
    } else if too_tall(target, size) {
        WindowGeometry { width: size.width, height: ideal_height(target, size.width as int) as u32 }
    } else {
        size
    }
}

/// Corrections stop at `size`: a pass leaves it as it is.
pub open spec fn settled(target: WindowGeometry, size: WindowGeometry) -> bool {
    corrected(target, size) == size
}

/// The corrective call that a resize notification asks for: the new size,
/// or `None` where the call would repeat the size the window has.
pub open spec fn correction(target: WindowGeometry, size: WindowGeometry) -> Option<
    WindowGeometry,
> {
    if settled(target, size) {
        None
    } else {
        Some(corrected(target, size))
    }
}

/// The size of a window after `passes` corrective passes in a row.
pub open spec fn after_passes(target: WindowGeometry, size: WindowGeometry, passes: nat)
    -> WindowGeometry
    decreases passes,
{
    if passes == 0 {
        size
    } else {
        corrected(target, after_passes(target, size, (passes - 1) as nat))
    }
}

/// A window that is too wide has some height, and does not grow when its
/// width is corrected.
pub proof fn lemma_ideal_width_shrinks(target: WindowGeometry, size: WindowGeometry)
    requires
        target.height > 0,
        too_wide(target, size),
    ensures
        0 <= ideal_width(target, size.height as int) <= size.width,
{
    let a = size.height * target.width;
    let b = target.height as int;
    let q = ideal_width(target, size.height as int);
    let w = size.width as int;
    assert(a >= 0) by (nonlinear_arith)
        requires
            a == size.height * target.width,
    ;
    lemma_round_div_nearest(a, b);
    assert(q <= w) by (nonlinear_arith)
        requires
            2 * q * b - b <= 2 * a,
            a < w * b,
            b > 0,
    ;
}

/// A window that is too tall has some height, its target some width, and it
/// does not grow when its height is corrected.
pub proof fn lemma_ideal_height_shrinks(target: WindowGeometry, size: WindowGeometry)
    requires
        too_tall(target, size),
    ensures
        target.width > 0,
        size.height > 0,
        0 <= ideal_height(target, size.width as int) <= size.height,
{
    let a = size.width * target.height;
    let b = target.width as int;
    let q = ideal_height(target, size.width as int);
    let h = size.height as int;
    assert(a >= 0 && b > 0 && h > 0) by (nonlinear_arith)
        requires
            a == size.width * target.height,
            a < h * b,
            b >= 0,
            h >= 0,
    ;
    lemma_round_div_nearest(a, b);
    assert(q <= h) by (nonlinear_arith)
        requires
            2 * q * b - b <= 2 * a,
            a < h * b,
            b > 0,
    ;
}

/// Where corrections stop: at a window without height, at one of exactly
/// the target's ratio, and at one whose dimension on the wrong side already
/// is the rounded ideal, so that the call would repeat the size.
pub proof fn law_settled_cases(target: WindowGeometry, size: WindowGeometry)
    requires
        target.height > 0,
    ensures
        settled(target, size) <==> {
            ||| size.height == 0
            ||| size.width * target.height == size.height * target.width
            ||| too_wide(target, size) && size.width == ideal_width(target, size.height as int)
            ||| too_tall(target, size) && size.height == ideal_height(target, size.width as int)
        },
{
    if size.height == 0 {
    } else if too_wide(target, size) {
        lemma_ideal_width_shrinks(target, size);
    } else if too_tall(target, size) {
        lemma_ideal_height_shrinks(target, size);
    }
}

/// A window whose width was just corrected and that is now too tall settles
/// with the correction of its height.
proof fn lemma_height_after_width(target: WindowGeometry, size: WindowGeometry)
    requires
        target.height > 0,
        size.width == ideal_width(target, size.height as int),
        too_tall(target, size),
    ensures
        settled(target, corrected(target, size)),
{
    let w = size.width as int;
    let h = size.height as int;
    let tw = target.width as int;
    let th = target.height as int;
    lemma_ideal_height_shrinks(target, size);
    let lower = ideal_height(target, w);
    let next = corrected(target, size);
    assert(next.width == w && next.height == lower);
    let wide = w * th;
    let tall = h * tw;
    let low = lower * tw;
    assert(wide >= 0 && tall >= 0) by (nonlinear_arith)
        requires
            wide == w * th,
            tall == h * tw,
            w >= 0,
            h >= 0,
            tw >= 0,
            th >= 0,
    ;
    lemma_round_div_nearest(tall, th);
    lemma_round_div_nearest(wide, tw);
    assert(2 * w * th == 2 * wide && 2 * lower * tw == 2 * low && 2 * h * tw == 2 * tall)
        by (nonlinear_arith)
        requires
            wide == w * th,
            low == lower * tw,
            tall == h * tw,
    ;
    // 2 * wide - th <= 2 * tall < 2 * wide + th, and
    // 2 * low - tw <= 2 * wide < 2 * low + tw, and wide < tall
    if lower > 0 && too_wide(target, next) {
        assert(wide > low);
        if tw > th {
            lemma_round_div_unique(wide, tw, h);
            assert(next == size);
        } else {
            lemma_round_div_unique(low, th, w);
        }
    }
}

/// A window whose height was just corrected and that is now too wide settles
/// with the correction of its width.
proof fn lemma_width_after_height(target: WindowGeometry, size: WindowGeometry)
    requires
        target.height > 0,
        target.width > 0,
        size.height == ideal_height(target, size.width as int),
        too_wide(target, size),
    ensures
        settled(target, corrected(target, size)),
{
    let w = size.width as int;
    let h = size.height as int;
    let tw = target.width as int;
    let th = target.height as int;
    if h > 0 {
        lemma_ideal_width_shrinks(target, size);
        let lower = ideal_width(target, h);
        let next = corrected(target, size);
        assert(next.width == lower && next.height == h);
        let wide = w * th;
        let tall = h * tw;
        let low = lower * th;
        assert(wide >= 0 && tall >= 0) by (nonlinear_arith)
            requires
                wide == w * th,
                tall == h * tw,
                w >= 0,
                h >= 0,
                tw >= 0,
                th >= 0,
        ;
        lemma_round_div_nearest(wide, tw);
        lemma_round_div_nearest(tall, th);
        assert(2 * h * tw == 2 * tall && 2 * lower * th == 2 * low && 2 * w * th == 2 * wide)
            by (nonlinear_arith)
            requires
                wide == w * th,
                low == lower * th,
                tall == h * tw,
        ;
        // 2 * tall - tw <= 2 * wide < 2 * tall + tw, and
        // 2 * low - th <= 2 * tall < 2 * low + th, and tall < wide
        if too_tall(target, next) {
            assert(low < tall);
            if th > tw {
                lemma_round_div_unique(tall, th, w);
                assert(next == size);
            } else {
                lemma_round_div_unique(low, tw, h);
            }
        }
    }
}

/// After a corrective pass on a window with some height, its ratio equals
/// the target's up to the rounding of one dimension: that dimension is within
/// half a pixel of the exact value. The controller keeps no state, so this
/// holds after each pass of any sequence of resizes.
pub proof fn law_corrected_matches_ratio(target: WindowGeometry, size: WindowGeometry)
    requires
        target.height > 0,
        size.height > 0,
    ensures
        within_rounding(target, corrected(target, size)),
{
    let w = size.width as int;
    let h = size.height as int;
    let tw = target.width as int;
    let th = target.height as int;
    let after = corrected(target, size);
    assert(h * tw >= 0 && w * th >= 0) by (nonlinear_arith)
        requires
            w >= 0,
            h >= 0,
            tw >= 0,
            th >= 0,
    ;
    if too_wide(target, size) {
        lemma_ideal_width_shrinks(target, size);
        lemma_round_div_nearest(h * tw, th);
        assert(2 * after.width * th == 2 * (after.width * th)) by (nonlinear_arith);
    } else if too_tall(target, size) {
        lemma_ideal_height_shrinks(target, size);
        lemma_round_div_nearest(w * th, tw);
        assert(2 * after.height * tw == 2 * (after.height * tw)) by (nonlinear_arith);
    }
}

/// A correction never enlarges the window, and changes one dimension only.
pub proof fn law_correction_shrinks(target: WindowGeometry, size: WindowGeometry)
    requires
        target.height > 0,
    ensures
        corrected(target, size).width <= size.width,
        corrected(target, size).height <= size.height,
        corrected(target, size).width == size.width || corrected(target, size).height
            == size.height,
{
    if size.height == 0 {
    } else if too_wide(target, size) {
        lemma_ideal_width_shrinks(target, size);
    } else if too_tall(target, size) {
        lemma_ideal_height_shrinks(target, size);
    }
}

/// A settled window stays settled: a pass on it, and a second one, change
/// nothing and ask for no call.
pub proof fn law_settled_stays(target: WindowGeometry, size: WindowGeometry)
    requires
        settled(target, size),
    ensures
        corrected(target, corrected(target, size)) == size,
        correction(target, size) is None,
        correction(target, corrected(target, size)) is None,
{
}

/// Two corrective passes in a row settle any window: the second may correct
/// the other dimension once, a third finds nothing to do.
pub proof fn law_two_passes_settle(target: WindowGeometry, size: WindowGeometry)
    requires
        target.height > 0,
    ensures
        settled(target, corrected(target, corrected(target, size))),
        correction(target, corrected(target, corrected(target, size))) is None,
{
    let once = corrected(target, size);
    if size.height == 0 {
    } else if too_wide(target, size) {
        lemma_ideal_width_shrinks(target, size);
        if too_tall(target, once) {
            lemma_height_after_width(target, once);
        }
    } else if too_tall(target, size) {
        lemma_ideal_height_shrinks(target, size);
        if too_wide(target, once) {
            lemma_width_after_height(target, once);
        }
    }
}

/// However many passes follow one another, the window stays where the
/// second left it: corrections reach a fixed point and never oscillate.
pub proof fn law_passes_converge(target: WindowGeometry, size: WindowGeometry, passes: nat)
    requires
        target.height > 0,
        passes >= 2,
    ensures
        after_passes(target, size, passes) == corrected(target, corrected(target, size)),
    decreases passes,
{
    if passes > 2 {
        law_passes_converge(target, size, (passes - 1) as nat);
        law_two_passes_settle(target, size);
    } else {
        assert(after_passes(target, size, 0) == size);
        assert(after_passes(target, size, 1) == corrected(target, size));
    }
}

/// Keeps the primary window at the aspect ratio it had when the controller
/// was made.
pub struct WindowController {
    target: WindowGeometry,
}

impl WindowController {
    #[verifier::type_invariant]
    spec fn has_ratio(&self) -> bool {
        self.target.height > 0
    }

    /// The size whose ratio is enforced.
    pub closed spec fn target(&self) -> WindowGeometry {
        self.target
    }

    /// Captures the ratio of the window's size at start-up. A window without
    /// height has no ratio, and gets no controller.
    pub fn new(initial: WindowGeometry) -> (r: Option<WindowController>)
        ensures
            r is Some <==> initial.height > 0,
            r matches Some(controller) ==> controller.target() == initial,
    {
        if initial.height == 0 {
            None
        } else {
            Some(WindowController { target: initial })
        }
    }

    /// The size the ratio was captured from. Its height is never zero.
    pub fn startup_size(&self) -> (r: WindowGeometry)
        ensures
            r == self.target(),
            r.height > 0,
    {
        proof {
            use_type_invariant(self);
        }
        self.target
    }

    /// Answers a resize notification that reports the size `current`: the
    /// size to set the window to, or `None` where no call is to be made.
    ///
    /// No state is kept between notifications, so what holds of one answer
    /// holds after every pass of any sequence of resizes.
    pub fn on_resize(&self, current: WindowGeometry) -> (r: Option<WindowGeometry>)
        ensures
            r == correction(self.target(), current),
    {
        proof {
            use_type_invariant(self);
            lemma_product_fits(current.width, self.target.height);
            lemma_product_fits(current.height, self.target.width);
        }
        let target = self.target;
        if current.height == 0 {
            return None;
        }
        let across_width: u64 = current.width as u64 * target.height as u64;
        let across_height: u64 = current.height as u64 * target.width as u64;
        if across_width > across_height {
            proof {
                lemma_ideal_width_shrinks(target, current);
            }
            let width: u64 = rounded_quotient(across_height, target.height as u64);
            if width == current.width as u64 {
                None
            } else {
                Some(WindowGeometry { width: width as u32, height: current.height })
            }
        } else if across_width < across_height {
            proof {
                lemma_ideal_height_shrinks(target, current);
            }
            let height: u64 = rounded_quotient(across_width, target.width as u64);
            if height == current.height as u64 {
                None
            } else {
                Some(WindowGeometry { width: current.width, height: height as u32 })
            }
        } else {
            None
        }
    }
}

} // verus!
