//! Every viewport the applier sets lies inside its render target.
use vstd::prelude::*;
use vstd::arithmetic::div_mod::{lemma_fundamental_div_mod, lemma_mod_bound};
use crate::applier::{
    aspect_ratio_update, bars_fit, boxed_update, clamped_size, fallback_length, fallback_offset,
    integer_scale_update, pixel_viewport, static_resolution_update, surface_ratio, adjusted, BoxedCamera,
};
use crate::calculate::{
    aspect_fit_view, downscale_divisor, has_zero_side, letterbox_view, pillarbox_view,
    scaled_up_view, scaled_view, width_limited, windowbox_view,
};
use crate::geometry::{fits_within, offset_px, size_px, whole, BoxingView, PixelVec2};
use crate::policy::{is_wider, AspectRatio, CameraBox};

verus! {

/// Lenient bars fall back to a box that fits only when the leading bar that it rescales is
/// no longer than the surface on that axis.
pub open spec fn lenient_bars_within(camera_box: CameraBox, p: PixelVec2) -> bool {
    match camera_box {
        CameraBox::LetterBox { top, strict_letterboxing, .. } => !strict_letterboxing ==> top <= p.y,
        CameraBox::PillarBox { left, strict_pillarboxing, .. } => !strict_pillarboxing ==> left <= p.x,
        CameraBox::WindowBox { left, top, strict_windowboxing, .. } => !strict_windowboxing ==> left
            <= p.x && top <= p.y,
        _ => true,
    }
}

/// On an axis of length `dim`, the exact offset `off` plus the exact length `len` is at most
/// `dim`, and the offset is not negative.
pub open spec fn axis_fits(off: (int, int), len: (int, int), dim: int) -> bool {
    &&& off.1 > 0
    &&& len.1 > 0
    &&& off.0 >= 0
    &&& off.0 * len.1 + len.0 * off.1 <= dim * off.1 * len.1
}

proof fn lemma_div_bounds(x: int, d: int)
    requires
        d > 0,
    ensures
        d * (x / d) <= x < d * (x / d) + d,
{
    lemma_fundamental_div_mod(x, d);
    lemma_mod_bound(x, d);
}

/// Rounding the offset and truncating the length keeps an exact fit.
proof fn lemma_rounded_axis_fits(off: (int, int), len: (int, int), dim: int)
    requires
        axis_fits(off, len, dim),
        len.0 > 0,
        dim >= 0,
    ensures
        offset_px(off) + size_px(len) <= dim,
{
    let (o, d1) = off;
    let (s, d2) = len;
    let a = (2 * o + d1) / (2 * d1);
    let b = s / d2;
    lemma_div_bounds(2 * o + d1, 2 * d1);
    lemma_div_bounds(s, d2);
    assert(offset_px(off) <= a);
    assert(size_px(len) <= b);
    assert(a + b <= dim) by (nonlinear_arith)
        requires
            d1 > 0,
            d2 > 0,
            2 * d1 * a <= 2 * o + d1,
            d2 * b <= s,
            o * d2 + s * d1 <= dim * d1 * d2,
    {
        assert(2 * d1 * d2 * a <= (2 * o + d1) * d2);
        assert(2 * d1 * d2 * b <= 2 * d1 * s);
        assert(2 * d1 * d2 * (a + b) <= 2 * dim * d1 * d2 + d1 * d2);
        if a + b > dim {
            assert(2 * d1 * d2 * (a + b) >= 2 * d1 * d2 * (dim + 1));
        }
    }
}

/// An exact boxing that fits on both axes gives a viewport that fits.
proof fn lemma_pixel_viewport_fits(b: BoxingView, p: PixelVec2)
    requires
        axis_fits(b.offset_x, b.width, p.x as int),
        axis_fits(b.offset_y, b.height, p.y as int),
    ensures
        pixel_viewport(b) matches Some(v) ==> fits_within(v, p),
{
    if size_px(b.width) > 0 && size_px(b.height) > 0 {
        lemma_rounded_axis_fits(b.offset_x, b.width, p.x as int);
        lemma_rounded_axis_fits(b.offset_y, b.height, p.y as int);
    }
}

/// A whole offset and a whole length that add up to at most `dim`.
proof fn lemma_whole_axis_fits(off: int, len: int, dim: int)
    requires
        0 <= off,
        off + len <= dim,
    ensures
        axis_fits(whole(off), whole(len), dim),
{
}

/// A truncated length is at most `dim` when the exact one is.
proof fn lemma_size_px_at_most(len: (int, int), dim: int)
    requires
        len.1 > 0,
        len.0 <= dim * len.1,
        0 <= dim,
    ensures
        size_px(len) <= dim,
{
    lemma_div_bounds(len.0, len.1);
    if len.0 > 0 {
        assert(len.0 / len.1 <= dim) by (nonlinear_arith)
            requires
                len.1 > 0,
                len.1 * (len.0 / len.1) <= len.0,
                len.0 <= dim * len.1,
        ;
    }
}

proof fn lemma_static_resolution_contained(
    resolution: PixelVec2,
    position: Option<PixelVec2>,
    p: PixelVec2,
)
    ensures
        static_resolution_update(resolution, position, p) matches Some(v) ==> fits_within(v, p),
{
    let size = clamped_size(resolution, p);
    if position is None {
        let b = BoxingView {
            offset_x: (p.x - size.x, 2),
            offset_y: (p.y - size.y, 2),
            width: whole(size.x as int),
            height: whole(size.y as int),
        };
        lemma_pixel_viewport_fits(b, p);
    }
}

proof fn lemma_aspect_ratio_contained(aspect_ratio: AspectRatio, position: Option<PixelVec2>, p: PixelVec2)
    requires
        !has_zero_side(p),
    ensures
        aspect_ratio_update(aspect_ratio, position, p) matches Some(v) ==> fits_within(
            v,
            p,
        ),
{
    if aspect_ratio.wf() {
        let s = surface_ratio(p);
        let b = aspect_fit_view(p, s, aspect_ratio);
        let tw = aspect_ratio.width as int;
        let th = aspect_ratio.height as int;
        let w = p.x as int;
        let h = p.y as int;
        if is_wider(s, aspect_ratio) {
            assert(axis_fits(b.offset_x, b.width, w)) by (nonlinear_arith)
                requires
                    b.offset_x == (w * th - h * tw, 2 * th),
                    b.width == (h * tw, th),
                    th > 0,
                    w * th > tw * h,
            ;
            lemma_whole_axis_fits(0, h, h);
            lemma_size_px_at_most(b.width, w);
            lemma_size_px_at_most(b.height, h);
        } else {
            assert(axis_fits(b.offset_y, b.height, h)) by (nonlinear_arith)
                requires
                    b.offset_y == (h * tw - w * th, 2 * tw),
                    b.height == (w * th, tw),
                    tw > 0,
                    w * th <= tw * h,
            ;
            lemma_whole_axis_fits(0, w, w);
            lemma_size_px_at_most(b.width, w);
            lemma_size_px_at_most(b.height, h);
        }
        lemma_pixel_viewport_fits(b, p);
    }
}

/// A whole length `len`, centered on an axis of length `dim` that holds it.
proof fn lemma_whole_axis_fits_halved(dim: int, len: int)
    requires
        0 <= len <= dim,
    ensures
        axis_fits((dim - len, 2), whole(len), dim),
{
}

/// `a * b <= c * b` from `a <= c` and `b >= 0`, and cancelling a positive factor.
proof fn lemma_scale_le(a: int, b: int, c: int)
    requires
        b > 0,
    ensures
        a <= c <==> a * b <= c * b,
{
    assert(a <= c ==> a * b <= c * b) by (nonlinear_arith)
        requires
            b > 0,
    ;
    assert(a * b <= c * b ==> a <= c) by (nonlinear_arith)
        requires
            b > 0,
    ;
}

/// A whole multiple of `d` that is no larger than `p` fits.
proof fn lemma_scaled_up_contained(p: PixelVec2, d: PixelVec2, k: int)
    requires
        k >= 0,
        d.x * k <= p.x,
        d.y * k <= p.y,
    ensures
        pixel_viewport(scaled_up_view(p, d, k)) matches Some(v) ==> fits_within(v, p),
{
    let b = scaled_up_view(p, d, k);
    let w = d.x * k;
    let h = d.y * k;
    assert(w >= 0 && h >= 0) by (nonlinear_arith)
        requires
            k >= 0,
            w == d.x * k,
            h == d.y * k,
    ;
    lemma_whole_axis_fits_halved(p.x as int, w);
    lemma_whole_axis_fits_halved(p.y as int, h);
    lemma_pixel_viewport_fits(b, p);
}

/// A multiple `n / m` of `d` that is no larger than `p` fits.
proof fn lemma_scaled_contained(p: PixelVec2, d: PixelVec2, n: int, m: int)
    requires
        m > 0,
        n >= 0,
        d.x * n <= p.x * m,
        d.y * n <= p.y * m,
    ensures
        pixel_viewport(scaled_view(p, d, n, m)) matches Some(v) ==> fits_within(v, p),
{
    let b = scaled_view(p, d, n, m);
    let px = p.x as int;
    let py = p.y as int;
    let dx = d.x as int;
    let dy = d.y as int;
    assert(axis_fits(b.offset_x, b.width, px)) by (nonlinear_arith)
        requires
            b.offset_x == (px * m - dx * n, 2 * m),
            b.width == (dx * n, m),
            m > 0,
            dx * n <= px * m,
    ;
    assert(axis_fits(b.offset_y, b.height, py)) by (nonlinear_arith)
        requires
            b.offset_y == (py * m - dy * n, 2 * m),
            b.height == (dy * n, m),
            m > 0,
            dy * n <= py * m,
    ;
    lemma_pixel_viewport_fits(b, p);
}

/// The whole scale that upscaling uses keeps `d` inside `p`.
proof fn lemma_floor_scale_fits(p: PixelVec2, d: PixelVec2)
    requires
        !has_zero_side(p),
        !has_zero_side(d),
    ensures
        ({
            let k: int = if width_limited(p, d) { p.x as int / d.x as int } else { p.y as int / d.y as int };
            k >= 0 && d.x * k <= p.x && d.y * k <= p.y
        }),
{
    let px = p.x as int;
    let py = p.y as int;
    let dx = d.x as int;
    let dy = d.y as int;
    if width_limited(p, d) {
        let k = px / dx;
        lemma_div_bounds(px, dx);
        assert(k >= 0) by (nonlinear_arith)
            requires
                dx > 0,
                px >= 0,
                dx * k <= px < dx * k + dx,
        ;
        lemma_scale_le(dx * k, dy, px);
        lemma_scale_le(dy * k, dx, py);
        assert(dy * k * dx == dx * k * dy) by (nonlinear_arith);
    } else {
        let k = py / dy;
        lemma_div_bounds(py, dy);
        assert(k >= 0) by (nonlinear_arith)
            requires
                dy > 0,
                py >= 0,
                dy * k <= py < dy * k + dy,
        ;
        lemma_scale_le(dy * k, dx, py);
        lemma_scale_le(dx * k, dy, px);
        assert(dy * k * dx == dx * k * dy) by (nonlinear_arith);
    }
}

proof fn lemma_integer_scale_contained(resolution: PixelVec2, imperfect: bool, p: PixelVec2)
    requires
        !has_zero_side(p),
    ensures
        integer_scale_update(resolution, imperfect, p) matches Some(v) ==> fits_within(
            v,
            p,
        ),
{
    let d = resolution;
    if !has_zero_side(d) {
        let px = p.x as int;
        let py = p.y as int;
        let dx = d.x as int;
        let dy = d.y as int;
        lemma_floor_scale_fits(p, d);
        let k: int = if width_limited(p, d) { px / dx } else { py / dy };
        if imperfect {
            let n = if width_limited(p, d) { px } else { py };
            let m = if width_limited(p, d) { dx } else { dy };
            if n >= m {
                lemma_scaled_up_contained(p, d, k);
            } else {
                assert(dx * n <= px * m && dy * n <= py * m) by (nonlinear_arith)
                    requires
                        (n == px && m == dx && px * dy <= py * dx) || (n == py && m == dy && px * dy
                            > py * dx),
                ;
                lemma_scaled_contained(p, d, n, m);
            }
        } else if py < dy || px < dx {
            let k = downscale_divisor(p, d);
            if dy * px < dx * py {
                lemma_div_bounds(dx + px - 1, px);
                assert(k > 0 && dx <= px * k) by (nonlinear_arith)
                    requires
                        px > 0,
                        dx > 0,
                        px * k <= dx + px - 1 < px * k + px,
                ;
                lemma_scale_le(dx, py, px * k);
                lemma_scale_le(dy, px, py * k);
                assert(px * k * py == py * k * px) by (nonlinear_arith);
            } else {
                lemma_div_bounds(dy + py - 1, py);
                assert(k > 0 && dy <= py * k) by (nonlinear_arith)
                    requires
                        py > 0,
                        dy > 0,
                        py * k <= dy + py - 1 < py * k + py,
                ;
                lemma_scale_le(dy, px, py * k);
                lemma_scale_le(dx, py, px * k);
                assert(px * k * py == py * k * px) by (nonlinear_arith);
            }
            lemma_scaled_contained(p, d, 1, k);
        } else {
            lemma_scaled_up_contained(p, d, k);
        }
    }
}

/// The fallback box of lenient bars fits when its leading bar is no longer than the axis.
proof fn lemma_fallback_axis_fits(lead: int, dim: int)
    requires
        0 <= lead <= dim,
        dim > 0,
    ensures
        axis_fits(fallback_offset(lead, dim), fallback_length(dim), dim),
{
    assert(lead * dim * 2 + dim * (dim + lead) <= dim * (dim + lead) * 2 && lead * dim >= 0)
        by (nonlinear_arith)
        requires
            0 <= lead <= dim,
            dim > 0,
    ;
}

/// One axis of bars: either they fit and leave a whole box, or the fallback box is used.
proof fn lemma_bar_axis_fits(lead: int, trail: int, dim: int)
    requires
        0 <= lead,
        0 <= trail,
        dim > 0,
        !bars_fit(dim, lead, trail) ==> lead <= dim,
    ensures
        bars_fit(dim, lead, trail) ==> axis_fits(whole(lead), whole(dim - lead - trail), dim),
        !bars_fit(dim, lead, trail) ==> axis_fits(fallback_offset(lead, dim), fallback_length(dim), dim),
{
    if bars_fit(dim, lead, trail) {
        lemma_whole_axis_fits(lead, dim - lead - trail, dim);
    } else {
        lemma_fallback_axis_fits(lead, dim);
    }
}

/// Every viewport that a policy asks for lies inside the render target, except that a
/// lenient bar policy whose leading bar is longer than the target is left out: its fallback
/// box can then reach past the target's edge.
pub proof fn lemma_containment(camera_box: CameraBox, physical_size: PixelVec2)
    requires
        lenient_bars_within(camera_box, physical_size),
    ensures
        boxed_update(camera_box, physical_size) matches Some(v) ==> fits_within(v, physical_size),
{
    let p = physical_size;
    if !has_zero_side(p) {
        let w = p.x as int;
        let h = p.y as int;
        match camera_box {
            CameraBox::StaticResolution { resolution, position } => {
                lemma_static_resolution_contained(resolution, position, p);
            },
            CameraBox::StaticAspectRatio { aspect_ratio, position } => {
                lemma_aspect_ratio_contained(aspect_ratio, position, p);
            },
            CameraBox::ResolutionIntegerScale { resolution, allow_imperfect_downscaled_boxing } => {
                lemma_integer_scale_contained(resolution, allow_imperfect_downscaled_boxing, p);
            },
            CameraBox::LetterBox { top, bottom, strict_letterboxing } => {
                let b = letterbox_view(p, top as int, bottom as int);
                lemma_whole_axis_fits(0, w, w);
                if bars_fit(h, top as int, bottom as int) {
                    lemma_bar_axis_fits(top as int, bottom as int, h);
                    lemma_pixel_viewport_fits(b, p);
                } else if !strict_letterboxing {
                    lemma_bar_axis_fits(top as int, bottom as int, h);
                    lemma_pixel_viewport_fits(
                        BoxingView {
                            offset_x: b.offset_x,
                            offset_y: fallback_offset(top as int, h),
                            width: b.width,
                            height: fallback_length(h),
                        },
                        p,
                    );
                }
            },
            CameraBox::PillarBox { left, right, strict_pillarboxing } => {
                let b = pillarbox_view(p, left as int, right as int);
                lemma_whole_axis_fits(0, h, h);
                if bars_fit(w, left as int, right as int) {
                    lemma_bar_axis_fits(left as int, right as int, w);
                    lemma_pixel_viewport_fits(b, p);
                } else if !strict_pillarboxing {
                    lemma_bar_axis_fits(left as int, right as int, w);
                    lemma_pixel_viewport_fits(
                        BoxingView {
                            offset_x: fallback_offset(left as int, w),
                            offset_y: b.offset_y,
                            width: fallback_length(w),
                            height: b.height,
                        },
                        p,
                    );
                }
            },
            CameraBox::WindowBox { left, right, top, bottom, strict_windowboxing } => {
                let b = windowbox_view(p, top as int, bottom as int, left as int, right as int);
                let fit_x = bars_fit(w, left as int, right as int);
                let fit_y = bars_fit(h, top as int, bottom as int);
                if strict_windowboxing {
                    if fit_x && fit_y {
                        lemma_bar_axis_fits(left as int, right as int, w);
                        lemma_bar_axis_fits(top as int, bottom as int, h);
                        lemma_pixel_viewport_fits(b, p);
                    }
                } else {
                    lemma_bar_axis_fits(left as int, right as int, w);
                    lemma_bar_axis_fits(top as int, bottom as int, h);
                    lemma_pixel_viewport_fits(
                        BoxingView {
                            offset_x: if fit_x { b.offset_x } else { fallback_offset(left as int, w) },
                            offset_y: if fit_y { b.offset_y } else { fallback_offset(top as int, h) },
                            width: if fit_x { b.width } else { fallback_length(w) },
                            height: if fit_y { b.height } else { fallback_length(h) },
                        },
                        p,
                    );
                }
            },
        }
    }
}

/// After the applier runs on an active camera whose target size is known, the camera's
/// viewport, if it has one, lies inside the target; the same exception for lenient bars
/// longer than the target applies.
pub proof fn lemma_adjusted_contained(c: BoxedCamera, physical_size: PixelVec2)
    requires
        c.is_active,
        c.target_size == Some(physical_size),
        lenient_bars_within(c.camera_box, physical_size),
    ensures
        adjusted(c).viewport matches Some(v) ==> fits_within(v, physical_size),
{
    lemma_containment(c.camera_box, physical_size);
}

} // verus!
