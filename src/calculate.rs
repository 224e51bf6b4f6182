use vstd::prelude::*;
use crate::geometry::{whole, Boxing, BoxingView, Frac, FracVec2, PixelVec2};
use crate::policy::{is_wider, AspectRatio, AspectRatioError};

verus! {

/// `a * b`, widened so that it cannot overflow.
pub(crate) fn mul_wide(a: u32, b: u32) -> (r: i128)
    ensures
        r == a * b,
        0 <= r <= u32::MAX * u32::MAX,
{
    proof {
        assert(0 <= a * b <= u32::MAX * u32::MAX) by (nonlinear_arith);
    }
    (a as i128) * (b as i128)
}

// ---------------------------------------------------------------------------------------------
// Fixed bars

/// Bars `top` and `bottom` on a surface of size `p`: the output spans the full width and
/// starts below the top bar. The height is negative when the bars do not fit.
pub open spec fn letterbox_view(p: PixelVec2, top: int, bottom: int) -> BoxingView {
    BoxingView {
        offset_x: whole(0),
        offset_y: whole(top),
        width: whole(p.x as int),
        height: whole(p.y - top - bottom),
    }
}

/// Bars `left` and `right` on a surface of size `p`.
pub open spec fn pillarbox_view(p: PixelVec2, left: int, right: int) -> BoxingView {
    BoxingView {
        offset_x: whole(left),
        offset_y: whole(0),
        width: whole(p.x - left - right),
        height: whole(p.y as int),
    }
}

/// Bars on all four sides of a surface of size `p`.
pub open spec fn windowbox_view(
    p: PixelVec2,
    top: int,
    bottom: int,
    left: int,
    right: int,
) -> BoxingView {
    BoxingView {
        offset_x: whole(left),
        offset_y: whole(top),
        width: whole(p.x - left - right),
        height: whole(p.y - top - bottom),
    }
}

fn whole_frac(n: i128) -> (r: Frac)
    requires
        -crate::geometry::NUM_BOUND <= n <= crate::geometry::NUM_BOUND,
    ensures
        r@ == whole(n as int),
        r.wf(),
{
    Frac::new(n, 1)
}

/// Letterboxing with `letterbox = (top, bottom)` bars.
pub fn calculate_letterbox(physical_size: &PixelVec2, letterbox: (u32, u32)) -> (r: Boxing)
    ensures
        r.wf(),
        r@ == letterbox_view(*physical_size, letterbox.0 as int, letterbox.1 as int),
{
    let height = physical_size.y as i128 - letterbox.0 as i128 - letterbox.1 as i128;
    Boxing::new(
        FracVec2::new(whole_frac(0), whole_frac(letterbox.0 as i128)),
        FracVec2::new(whole_frac(physical_size.x as i128), whole_frac(height)),
    )
}

/// Pillarboxing with `pillarbox = (left, right)` bars.
pub fn calculate_pillarbox(physical_size: &PixelVec2, pillarbox: (u32, u32)) -> (r: Boxing)
    ensures
        r.wf(),
        r@ == pillarbox_view(*physical_size, pillarbox.0 as int, pillarbox.1 as int),
{
    let width = physical_size.x as i128 - pillarbox.0 as i128 - pillarbox.1 as i128;
    Boxing::new(
        FracVec2::new(whole_frac(pillarbox.0 as i128), whole_frac(0)),
        FracVec2::new(whole_frac(width), whole_frac(physical_size.y as i128)),
    )
}

/// Windowboxing with `windowbox = [(top, bottom), (left, right)]` bars.
pub fn calculate_windowbox(physical_size: &PixelVec2, windowbox: [(u32, u32); 2]) -> (r: Boxing)
    ensures
        r.wf(),
        r@ == windowbox_view(
            *physical_size,
            windowbox[0].0 as int,
            windowbox[0].1 as int,
            windowbox[1].0 as int,
            windowbox[1].1 as int,
        ),
{
    let (top, bottom) = windowbox[0];
    let (left, right) = windowbox[1];
    let width = physical_size.x as i128 - left as i128 - right as i128;
    let height = physical_size.y as i128 - top as i128 - bottom as i128;
    Boxing::new(
        FracVec2::new(whole_frac(left as i128), whole_frac(top as i128)),
        FracVec2::new(whole_frac(width), whole_frac(height)),
    )
}

// ---------------------------------------------------------------------------------------------
// Static aspect ratio

/// The largest rectangle of ratio `target` inside a surface of size `p`, centered on the axis
/// that has room to spare. `physical` is the surface's own ratio: when it is wider than
/// `target` the height is kept, otherwise the width.
pub open spec fn aspect_fit_view(p: PixelVec2, physical: AspectRatio, target: AspectRatio) -> BoxingView {
    if is_wider(physical, target) {
        BoxingView {
            offset_x: (p.x * target.height - p.y * target.width, 2 * target.height),
            offset_y: whole(0),
            width: (p.y * target.width, target.height as int),
            height: whole(p.y as int),
        }
    } else {
        BoxingView {
            offset_x: whole(0),
            offset_y: (p.y * target.width - p.x * target.height, 2 * target.width),
            width: whole(p.x as int),
            height: (p.x * target.height, target.width as int),
        }
    }
}

/// Boxing that keeps `target_aspect_ratio` on a surface of size `physical_size`, whose own
/// ratio is `physical_aspect_ratio`.
pub fn calculate_boxing_from_aspect_ratios(
    physical_size: &PixelVec2,
    physical_aspect_ratio: &AspectRatio,
    target_aspect_ratio: &AspectRatio,
) -> (r: Boxing)
    requires
        target_aspect_ratio.wf(),
    ensures
        r.wf(),
        r@ == aspect_fit_view(*physical_size, *physical_aspect_ratio, *target_aspect_ratio),
{
    let p = *physical_size;
    let t = *target_aspect_ratio;
    if mul_wide(physical_aspect_ratio.width, t.height) > mul_wide(t.width, physical_aspect_ratio.height) {
        let offset_x = mul_wide(p.x, t.height) - mul_wide(p.y, t.width);
        Boxing::new(
            FracVec2::new(Frac::new(offset_x, 2 * t.height as i128), whole_frac(0)),
            FracVec2::new(Frac::new(mul_wide(p.y, t.width), t.height as i128), whole_frac(p.y as i128)),
        )
    } else {
        let offset_y = mul_wide(p.y, t.width) - mul_wide(p.x, t.height);
        Boxing::new(
            FracVec2::new(whole_frac(0), Frac::new(offset_y, 2 * t.width as i128)),
            FracVec2::new(whole_frac(p.x as i128), Frac::new(mul_wide(p.x, t.height), t.width as i128)),
        )
    }
}

// ---------------------------------------------------------------------------------------------
// Integer scale of a reference resolution

/// A zero side: no ratio can be formed.
pub open spec fn has_zero_side(v: PixelVec2) -> bool {
    v.x == 0 || v.y == 0
}

/// Surface `p` and reference `d` have the same ratio.
pub open spec fn ratio_matches(p: PixelVec2, d: PixelVec2) -> bool {
    d.x * p.y == d.y * p.x
}

/// `p` is a whole multiple of `d` on both axes.
pub open spec fn whole_upscale(p: PixelVec2, d: PixelVec2) -> bool {
    p.x % d.x == 0 && p.y % d.y == 0
}

/// `d` is a whole multiple of `p` on both axes.
pub open spec fn whole_downscale(p: PixelVec2, d: PixelVec2) -> bool {
    d.x % p.x == 0 && d.y % p.y == 0
}

/// The width scale `p.x / d.x` is at most the height scale `p.y / d.y`.
pub open spec fn width_limited(p: PixelVec2, d: PixelVec2) -> bool {
    p.x * d.y <= p.y * d.x
}

/// `a / b` rounded up.
pub open spec fn ceil_div(a: int, b: int) -> int {
    (a + b - 1) / b
}

/// `d` multiplied by the whole number `k`, centered in `p`.
pub open spec fn scaled_up_view(p: PixelVec2, d: PixelVec2, k: int) -> BoxingView {
    BoxingView {
        offset_x: (p.x - d.x * k, 2),
        offset_y: (p.y - d.y * k, 2),
        width: whole(d.x * k),
        height: whole(d.y * k),
    }
}

/// `d` multiplied by the fraction `n / m`, centered in `p`.
pub open spec fn scaled_view(p: PixelVec2, d: PixelVec2, n: int, m: int) -> BoxingView {
    BoxingView {
        offset_x: (p.x * m - d.x * n, 2 * m),
        offset_y: (p.y * m - d.y * n, 2 * m),
        width: (d.x * n, m),
        height: (d.y * n, m),
    }
}

/// Integer scaling that lets the ratio drift when downscaling: `None` when `p` already is a
/// whole multiple or a whole fraction of `d`; otherwise `d` scaled by the smaller of the two
/// axis scales, rounded down to a whole number when that scale is at least one.
pub open spec fn imperfect_view(p: PixelVec2, d: PixelVec2) -> Option<BoxingView> {
    if ratio_matches(p, d) && (whole_upscale(p, d) || whole_downscale(p, d)) {
        None
    } else {
        let n = if width_limited(p, d) { p.x as int } else { p.y as int };
        let m = if width_limited(p, d) { d.x as int } else { d.y as int };
        if n >= m {
            Some(scaled_up_view(p, d, n / m))
        } else {
            Some(scaled_view(p, d, n, m))
        }
    }
}

/// The divisor of `d` that perfect downscaling uses: the larger of the two axis ratios
/// `d / p`, rounded up.
pub open spec fn downscale_divisor(p: PixelVec2, d: PixelVec2) -> int {
    if d.y * p.x < d.x * p.y {
        ceil_div(d.x as int, p.x as int)
    } else {
        ceil_div(d.y as int, p.y as int)
    }
}

/// Integer scaling that keeps the exact ratio: `None` when `p` already is a whole multiple
/// of `d` (or, when `p` is smaller than `d`, a whole fraction of it); when `p` is smaller
/// than `d` on some axis, `d` divided by a whole divisor; otherwise `d` multiplied by the
/// smaller axis scale rounded down.
pub open spec fn perfect_view(p: PixelVec2, d: PixelVec2) -> Option<BoxingView> {
    if ratio_matches(p, d) && whole_upscale(p, d) {
        None
    } else if p.y < d.y || p.x < d.x {
        if ratio_matches(p, d) && whole_downscale(p, d) {
            None
        } else {
            Some(scaled_view(p, d, 1, downscale_divisor(p, d)))
        }
    } else {
        let k: int = if width_limited(p, d) { p.x as int / d.x as int } else { p.y as int / d.y as int };
        Some(scaled_up_view(p, d, k))
    }
}

/// The exact value of an optional boxing.
pub open spec fn opt_view(o: Option<Boxing>) -> Option<BoxingView> {
    match o {
        Some(b) => Some(b@),
        None => None,
    }
}

/// The outcome of an integer-scale calculation: an error exactly when a side is zero,
/// otherwise `model`.
pub open spec fn scale_result_matches(
    r: Result<Option<Boxing>, AspectRatioError>,
    p: PixelVec2,
    d: PixelVec2,
    model: Option<BoxingView>,
) -> bool {
    &&& (r is Err <==> has_zero_side(p) || has_zero_side(d))
    &&& (r matches Err(e) ==> e == AspectRatioError::Zero)
    &&& (r matches Ok(o) ==> opt_view(o) == model && (o matches Some(b) ==> b.wf()))
}

fn scaled_up(p: PixelVec2, d: PixelVec2, k: u32) -> (r: Boxing)
    ensures
        r.wf(),
        r@ == scaled_up_view(p, d, k as int),
{
    let w = mul_wide(d.x, k);
    let h = mul_wide(d.y, k);
    Boxing::new(
        FracVec2::new(Frac::new(p.x as i128 - w, 2), Frac::new(p.y as i128 - h, 2)),
        FracVec2::new(whole_frac(w), whole_frac(h)),
    )
}

fn scaled(p: PixelVec2, d: PixelVec2, n: u32, m: u32) -> (r: Boxing)
    requires
        m > 0,
    ensures
        r.wf(),
        r@ == scaled_view(p, d, n as int, m as int),
{
    let offset_x = mul_wide(p.x, m) - mul_wide(d.x, n);
    let offset_y = mul_wide(p.y, m) - mul_wide(d.y, n);
    let den = 2 * m as i128;
    Boxing::new(
        FracVec2::new(Frac::new(offset_x, den), Frac::new(offset_y, den)),
        FracVec2::new(Frac::new(mul_wide(d.x, n), m as i128), Frac::new(mul_wide(d.y, n), m as i128)),
    )
}

/// Integer-scale boxing of reference resolution `desired_size` on a surface of size
/// `physical_size`, letting the ratio drift when downscaling.
pub fn calculate_boxing_imperfect(physical_size: &PixelVec2, desired_size: &PixelVec2) -> (r: Result<
    Option<Boxing>,
    AspectRatioError,
>)
    ensures
        scale_result_matches(r, *physical_size, *desired_size, imperfect_view(*physical_size, *desired_size)),
{
    let p = *physical_size;
    let d = *desired_size;
    if d.x == 0 || d.y == 0 || p.x == 0 || p.y == 0 {
        return Err(AspectRatioError::Zero);
    }
    let same = mul_wide(d.x, p.y) == mul_wide(d.y, p.x);
    let up = p.x % d.x == 0 && p.y % d.y == 0;
    let down = d.x % p.x == 0 && d.y % p.y == 0;
    if same && (up || down) {
        return Ok(None);
    }
    let by_width = mul_wide(p.x, d.y) <= mul_wide(p.y, d.x);
    let n = if by_width { p.x } else { p.y };
    let m = if by_width { d.x } else { d.y };
    if n >= m {
        Ok(Some(scaled_up(p, d, n / m)))
    } else {
        Ok(Some(scaled(p, d, n, m)))
    }
}

/// `a / b` rounded up.
fn ceil_div_u32(a: u32, b: u32) -> (r: u32)
    requires
        b > 0,
    ensures
        r == ceil_div(a as int, b as int),
        a > 0 ==> r > 0,
{
    proof {
        assert((a + b - 1) / (b as int) <= a) by (nonlinear_arith)
            requires
                b > 0,
                a >= 0,
        ;
        assert(a > 0 ==> (a + b - 1) / (b as int) > 0) by (nonlinear_arith)
            requires
                b > 0,
        ;
    }
    ((a as u64 + b as u64 - 1) / b as u64) as u32
}

/// Integer-scale boxing of reference resolution `desired_size` on a surface of size
/// `physical_size`, keeping the exact ratio.
pub fn calculate_boxing_perfect(physical_size: &PixelVec2, desired_size: &PixelVec2) -> (r: Result<
    Option<Boxing>,
    AspectRatioError,
>)
    ensures
        scale_result_matches(r, *physical_size, *desired_size, perfect_view(*physical_size, *desired_size)),
{
    let p = *physical_size;
    let d = *desired_size;
    if d.x == 0 || d.y == 0 || p.x == 0 || p.y == 0 {
        return Err(AspectRatioError::Zero);
    }
    let same = mul_wide(d.x, p.y) == mul_wide(d.y, p.x);
    if same && p.x % d.x == 0 && p.y % d.y == 0 {
        return Ok(None);
    }
    if p.y < d.y || p.x < d.x {
        if same && d.x % p.x == 0 && d.y % p.y == 0 {
            return Ok(None);
        }
        let k = if mul_wide(d.y, p.x) < mul_wide(d.x, p.y) {
            ceil_div_u32(d.x, p.x)
        } else {
            ceil_div_u32(d.y, p.y)
        };
        Ok(Some(scaled(p, d, 1, k)))
    } else {
        let k = if mul_wide(p.x, d.y) <= mul_wide(p.y, d.x) { p.x / d.x } else { p.y / d.y };
        Ok(Some(scaled_up(p, d, k)))
    }
}

} // verus!
