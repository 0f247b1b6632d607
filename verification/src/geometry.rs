//! From font units to raster texels.
//!
//! All texel quantities that a face is configured with are 26.6 fixed-point
//! numbers: an integer counts sixty-fourths of a texel. Everything the
//! planner returns is exact: raster extents are whole texels, and the affine
//! transform and the render box are fractions with explicit numerator and
//! denominator.

use vstd::prelude::*;

verus! {

/// Fixed-point steps in one texel.
pub const TEXEL_STEPS: u32 = 64;

/// A glyph's bounding box in font units.
#[derive(Clone, Copy, Debug, PartialEq, Eq, Structural)]
pub struct GlyphBounds {
    pub x_min: i16,
    pub y_min: i16,
    pub x_max: i16,
    pub y_max: i16,
}

/// An exact fraction. The denominator is zero where the quantity is not
/// defined (a glyph without extent, a face without density).
#[derive(Clone, Copy, Debug, PartialEq, Eq, Structural)]
pub struct Ratio {
    pub num: i64,
    pub den: i64,
}

/// The plan for one axis of a glyph's raster.
#[derive(Clone, Copy, Debug, PartialEq, Eq, Structural)]
pub struct AxisPlan {
    /// Raster extent in texels, never more than the atlas extent.
    pub extent: u32,
    /// Font units to texels: the factor.
    pub scale: Ratio,
    /// Font units to texels: the offset, in texels.
    pub offset: Ratio,
    /// Lower edge of the quad, in em.
    pub render_min: Ratio,
    /// Upper edge of the quad, in em.
    pub render_max: Ratio,
}

/// The box, in em, of the quad that shows a glyph's raster.
#[derive(Clone, Copy, Debug, PartialEq, Eq, Structural)]
pub struct RenderBounds {
    pub x_min: Ratio,
    pub y_min: Ratio,
    pub x_max: Ratio,
    pub y_max: Ratio,
}

/// The plan for a glyph's raster: one plan per axis.
#[derive(Clone, Copy, Debug, PartialEq, Eq, Structural)]
pub struct GlyphPlan {
    pub x: AxisPlan,
    pub y: AxisPlan,
}

/// The least integer that is not below `a / d`.
pub open spec fn ceil_div(a: int, d: int) -> int
    recommends
        d > 0,
{
    if a % d == 0 {
        a / d
    } else {
        a / d + 1
    }
}

/// Texels needed for the glyph and its border, before any cap:
/// `ceil(extent * density / units + border)`, with `border` and `density` in
/// sixty-fourths of a texel.
pub open spec fn full_extent(lo: int, hi: int, units: int, border: int, density: int) -> int
    recommends
        units > 0,
{
    ceil_div((hi - lo) * density + border * units, 64 * units)
}

/// The raster extent: `full_extent`, at least zero and at most `cap`.
pub open spec fn raster_extent(
    lo: int,
    hi: int,
    units: int,
    border: int,
    density: int,
    cap: int,
) -> int
    recommends
        units > 0,
        cap >= 0,
{
    let full = full_extent(lo, hi, units, border, density);
    if full <= 0 {
        0
    } else if full >= cap {
        cap
    } else {
        full
    }
}

/// The plan of one axis, as the formulas give it. With `e` the raster extent,
/// `b = border / 64` and `t = density / 64`:
/// scale `(e - b) / (hi - lo)`, offset `b / 2 - lo * scale`, and the quad
/// from `lo / units - half` to `hi / units + half`, where
/// `half = (e - (hi - lo) * t / units) / t / 2`.
pub open spec fn axis_plan(
    lo: int,
    hi: int,
    units: int,
    border: int,
    density: int,
    cap: int,
) -> AxisPlan
    recommends
        units > 0,
{
    let e = raster_extent(lo, hi, units, border, density, cap);
    AxisPlan {
        extent: e as u32,
        scale: Ratio { num: (64 * e - border) as i64, den: (64 * (hi - lo)) as i64 },
        offset: Ratio {
            num: (border * (hi - lo) - 2 * lo * (64 * e - border)) as i64,
            den: (128 * (hi - lo)) as i64,
        },
        render_min: Ratio {
            num: ((lo + hi) * density - 64 * units * e) as i64,
            den: (2 * units * density) as i64,
        },
        render_max: Ratio {
            num: ((lo + hi) * density + 64 * units * e) as i64,
            den: (2 * units * density) as i64,
        },
    }
}

/// The plan of a glyph: both axes.
pub open spec fn glyph_plan(
    bounds: GlyphBounds,
    units: u16,
    border: u32,
    density_x: u32,
    density_y: u32,
    cap_x: u32,
    cap_y: u32,
) -> GlyphPlan {
    GlyphPlan {
        x: axis_plan(
            bounds.x_min as int,
            bounds.x_max as int,
            units as int,
            border as int,
            density_x as int,
            cap_x as int,
        ),
        y: axis_plan(
            bounds.y_min as int,
            bounds.y_max as int,
            units as int,
            border as int,
            density_y as int,
            cap_y as int,
        ),
    }
}

impl GlyphPlan {
    /// The quad of the plan.
    pub open spec fn spec_render_bounds(self) -> RenderBounds {
        RenderBounds {
            x_min: self.x.render_min,
            y_min: self.y.render_min,
            x_max: self.x.render_max,
            y_max: self.y.render_max,
        }
    }

    /// The quad that shows the raster.
    pub fn render_bounds(&self) -> (r: RenderBounds)
        ensures
            r == self.spec_render_bounds(),
    {
        RenderBounds {
            x_min: self.x.render_min,
            y_min: self.y.render_min,
            x_max: self.x.render_max,
            y_max: self.y.render_max,
        }
    }
}

/// `ceil_div(a, d)` is the least `n` with `n * d >= a`.
pub proof fn lemma_ceil_div_least(a: int, d: int)
    requires
        d > 0,
    ensures
        ceil_div(a, d) * d >= a,
        (ceil_div(a, d) - 1) * d < a,
{
    let q = a / d;
    let r = a % d;
    assert(a == d * q + r && 0 <= r < d) by {
        vstd::arithmetic::div_mod::lemma_fundamental_div_mod(a, d);
        vstd::arithmetic::div_mod::lemma_mod_bound(a, d);
    }
    assert(q * d == d * q && (q + 1) * d == d * q + d && (q - 1) * d == d * q - d)
        by (nonlinear_arith);
}

/// Any `n` with `n * d >= a > (n - 1) * d` is `ceil_div(a, d)`.
pub proof fn lemma_ceil_div_unique(a: int, d: int, n: int)
    requires
        d > 0,
        n * d >= a,
        (n - 1) * d < a,
    ensures
        n == ceil_div(a, d),
{
    lemma_ceil_div_least(a, d);
    let c = ceil_div(a, d);
    if n < c {
        assert(n * d <= (c - 1) * d) by (nonlinear_arith)
            requires
                n <= c - 1,
                d > 0,
        ;
    } else if n > c {
        assert(c * d <= (n - 1) * d) by (nonlinear_arith)
            requires
                c <= n - 1,
                d > 0,
        ;
    }
}

/// The full extent is the least number of texels that holds the glyph, at
/// its density, and the border: with `units` per em and all texel quantities
/// in sixty-fourths, the least `n` with
/// `n * 64 * units >= (hi - lo) * density + border * units`.
pub proof fn lemma_full_extent_least(lo: int, hi: int, units: int, border: int, density: int)
    requires
        units > 0,
    ensures
        full_extent(lo, hi, units, border, density) * (64 * units) >= (hi - lo) * density + border
            * units,
        (full_extent(lo, hi, units, border, density) - 1) * (64 * units) < (hi - lo) * density
            + border * units,
{
    lemma_ceil_div_least((hi - lo) * density + border * units, 64 * units);
}

/// The raster extent is never more than the atlas extent, and it is the
/// full extent wherever that fits.
pub proof fn lemma_raster_extent_capped(
    lo: int,
    hi: int,
    units: int,
    border: int,
    density: int,
    cap: int,
)
    requires
        units > 0,
        cap >= 0,
    ensures
        0 <= raster_extent(lo, hi, units, border, density, cap) <= cap,
        0 <= full_extent(lo, hi, units, border, density) <= cap ==> raster_extent(
            lo,
            hi,
            units,
            border,
            density,
            cap,
        ) == full_extent(lo, hi, units, border, density),
{
}

/// A product is bounded by the product of the bounds.
proof fn lemma_product_bound(a: int, b: int, ma: int, mb: int)
    requires
        -ma <= a <= ma,
        -mb <= b <= mb,
    ensures
        -(ma * mb) <= a * b <= ma * mb,
{
    assert(-(ma * mb) <= a * b <= ma * mb) by (nonlinear_arith)
        requires
            -ma <= a <= ma,
            -mb <= b <= mb,
    ;
}

/// `ceil_div(need, step)`, at least zero and at most `cap`.
fn capped_ceil(need: i64, step: i64, cap: u32) -> (e: u32)
    requires
        step > 0,
    ensures
        e as int == {
            let full = ceil_div(need as int, step as int);
            if full <= 0 {
                0
            } else if full >= cap as int {
                cap as int
            } else {
                full
            }
        },
{
    proof {
        lemma_ceil_div_least(need as int, step as int);
    }
    let ghost full = ceil_div(need as int, step as int);
    if need <= 0 {
        assert(full <= 0) by (nonlinear_arith)
            requires
                (full - 1) * step < need,
                need <= 0,
                step > 0,
        ;
        return 0;
    }
    assert(full >= 1) by (nonlinear_arith)
        requires
            full * step >= need,
            need > 0,
            step > 0,
    ;
    let n: u64 = need as u64;
    let d: u64 = step as u64;
    let q: u64 = n / d;
    let r: u64 = n % d;
    assert(q as int == need as int / step as int && r as int == need as int % step as int);
    assert(q <= n) by {
        vstd::arithmetic::div_mod::lemma_div_is_ordered_by_denominator(n as int, 1, d as int);
        vstd::arithmetic::div_mod::lemma_div_basics(n as int);
    }
    let full_exec: u64 = if r == 0 {
        q
    } else {
        q + 1
    };
    if full_exec >= cap as u64 {
        cap
    } else {
        full_exec as u32
    }
}

/// Plans one axis of a glyph's raster: the extent `lo..hi` of the bounding
/// box in font units, `units` per em, and `border` and `density` (texels per
/// em) in sixty-fourths of a texel; `cap` is the atlas extent.
pub fn plan_axis(lo: i16, hi: i16, units: u16, border: u32, density: u32, cap: u32) -> (p:
    AxisPlan)
    requires
        units > 0,
    ensures
        p == axis_plan(
            lo as int,
            hi as int,
            units as int,
            border as int,
            density as int,
            cap as int,
        ),
        p.extent <= cap,
{
    let raw: i64 = hi as i64 - lo as i64;
    let mid: i64 = lo as i64 + hi as i64;
    let two_lo: i64 = 2 * (lo as i64);
    let b: i64 = border as i64;
    let t: i64 = density as i64;
    let u: i64 = units as i64;
    let step: i64 = 64 * u;
    proof {
        lemma_product_bound(raw as int, t as int, 65535, 4294967295);
        lemma_product_bound(b as int, u as int, 4294967295, 65535);
    }
    let need: i64 = raw * t + b * u;
    let extent: u32 = capped_ceil(need, step, cap);
    let e: i64 = extent as i64;
    let inner: i64 = 64 * e - b;
    proof {
        lemma_product_bound(b as int, raw as int, 4294967295, 65535);
        lemma_product_bound(two_lo as int, inner as int, 65536, 274877906880);
        lemma_product_bound(mid as int, t as int, 65536, 4294967295);
        lemma_product_bound(step as int, e as int, 4194240, 4294967295);
        lemma_product_bound((2 * u) as int, t as int, 131070, 4294967295);
    }
    let centre: i64 = mid * t;
    let reach: i64 = step * e;
    let den: i64 = (2 * u) * t;
    AxisPlan {
        extent,
        scale: Ratio { num: inner, den: 64 * raw },
        offset: Ratio { num: b * raw - two_lo * inner, den: 128 * raw },
        render_min: Ratio { num: centre - reach, den },
        render_max: Ratio { num: centre + reach, den },
    }
}

/// Plans the raster of a glyph with bounding box `bounds` in a face with
/// `units` per em, for atlases of `cap_x` by `cap_y` texels.
pub fn plan_glyph(
    bounds: GlyphBounds,
    units: u16,
    border: u32,
    density_x: u32,
    density_y: u32,
    cap_x: u32,
    cap_y: u32,
) -> (p: GlyphPlan)
    requires
        units > 0,
    ensures
        p == glyph_plan(bounds, units, border, density_x, density_y, cap_x, cap_y),
        p.x.extent <= cap_x,
        p.y.extent <= cap_y,
{
    GlyphPlan {
        x: plan_axis(bounds.x_min, bounds.x_max, units, border, density_x, cap_x),
        y: plan_axis(bounds.y_min, bounds.y_max, units, border, density_y, cap_y),
    }
}

} // verus!
