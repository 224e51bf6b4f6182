use vstd::prelude::*;
use crate::calculate::{
    aspect_fit_view, calculate_boxing_from_aspect_ratios, calculate_boxing_imperfect,
    calculate_boxing_perfect, calculate_letterbox, calculate_pillarbox, calculate_windowbox,
    has_zero_side, imperfect_view, mul_wide, letterbox_view, perfect_view, pillarbox_view, windowbox_view,
};
use crate::geometry::{
    offset_px, size_px, to_offset_px, to_size_px, whole, Boxing, BoxingView, Frac, FracVec2,
    PixelVec2, Viewport,
};
use crate::policy::{same_ratio, AspectRatio, CameraBox};

verus! {

pub open spec fn origin() -> PixelVec2 {
    PixelVec2 { x: 0, y: 0 }
}

/// The size of a boxing in whole pixels.
pub open spec fn pixel_size(b: BoxingView) -> PixelVec2 {
    PixelVec2 { x: size_px(b.width) as u32, y: size_px(b.height) as u32 }
}

/// The offset of a boxing in whole pixels.
pub open spec fn pixel_offset(b: BoxingView) -> PixelVec2 {
    PixelVec2 { x: offset_px(b.offset_x) as u32, y: offset_px(b.offset_y) as u32 }
}

/// A viewport at `position` of the given size; a size with a zero side is degenerate and
/// clears the viewport instead.
pub open spec fn viewport_or_clear(position: PixelVec2, size: PixelVec2) -> Option<Viewport> {
    if size.x == 0 || size.y == 0 {
        None
    } else {
        Some(Viewport { physical_position: position, physical_size: size })
    }
}

/// A boxing turned into a viewport.
pub open spec fn pixel_viewport(b: BoxingView) -> Option<Viewport> {
    viewport_or_clear(pixel_offset(b), pixel_size(b))
}

/// A box of `size` at `position` lies inside `surface`.
pub open spec fn is_within(surface: PixelVec2, position: PixelVec2, size: PixelVec2) -> bool {
    position.x + size.x <= surface.x && position.y + size.y <= surface.y
}

/// A boxing placed at an explicit `position`, or at the origin when it would not fit there.
pub open spec fn placed_viewport(b: BoxingView, position: PixelVec2, p: PixelVec2) -> Option<Viewport> {
    let size = pixel_size(b);
    viewport_or_clear(if is_within(p, position, size) { position } else { origin() }, size)
}

pub open spec fn min(a: int, b: int) -> int {
    if a <= b { a } else { b }
}

/// `resolution` clamped to at most the surface `p` on each axis.
pub open spec fn clamped_size(resolution: PixelVec2, p: PixelVec2) -> PixelVec2 {
    PixelVec2 { x: min(resolution.x as int, p.x as int) as u32, y: min(resolution.y as int, p.y as int) as u32 }
}

/// A static resolution on surface `p`. The exact resolution without a position needs no
/// boxing. Otherwise the resolution, clamped to the surface, is centered, or placed at
/// `position` when it fits there, and at the origin when it does not.
pub open spec fn static_resolution_update(
    resolution: PixelVec2,
    position: Option<PixelVec2>,
    p: PixelVec2,
) -> Option<Viewport> {
    let size = clamped_size(resolution, p);
    if resolution == p && position is None {
        None
    } else {
        match position {
            None => pixel_viewport(
                BoxingView {
                    offset_x: (p.x - size.x, 2),
                    offset_y: (p.y - size.y, 2),
                    width: whole(size.x as int),
                    height: whole(size.y as int),
                },
            ),
            Some(pos) => viewport_or_clear(if is_within(p, pos, size) { pos } else { origin() }, size),
        }
    }
}

/// The ratio of surface `p`.
pub open spec fn surface_ratio(p: PixelVec2) -> AspectRatio {
    AspectRatio { width: p.x, height: p.y }
}

/// A static aspect ratio on surface `p`. A degenerate ratio, or the surface's own ratio,
/// needs no boxing; otherwise the largest box of the ratio is centered, or placed at
/// `position` (at the origin when it does not fit there).
pub open spec fn aspect_ratio_update(
    aspect_ratio: AspectRatio,
    position: Option<PixelVec2>,
    p: PixelVec2,
) -> Option<Viewport> {
    if !aspect_ratio.wf() || same_ratio(surface_ratio(p), aspect_ratio) {
        None
    } else {
        let b = aspect_fit_view(p, surface_ratio(p), aspect_ratio);
        match position {
            None => pixel_viewport(b),
            Some(pos) => placed_viewport(b, pos, p),
        }
    }
}

/// An integer scale of `resolution` on surface `p`: no boxing when the surface needs none
/// or the resolution has a zero side.
pub open spec fn integer_scale_update(resolution: PixelVec2, imperfect: bool, p: PixelVec2) -> Option<Viewport> {
    let model = if imperfect { imperfect_view(p, resolution) } else { perfect_view(p, resolution) };
    if has_zero_side(resolution) {
        None
    } else {
        match model {
            None => None,
            Some(b) => pixel_viewport(b),
        }
    }
}

/// Bars `lead` and `trail` leave room for some output on an axis of length `dim`.
pub open spec fn bars_fit(dim: int, lead: int, trail: int) -> bool {
    lead + trail < dim
}

/// The half-length box that lenient bars fall back to: its length is `dim / 2`, and the
/// leading bar, halved, is rescaled by `dim / (dim / 2 + lead / 2)`.
pub open spec fn fallback_offset(lead: int, dim: int) -> (int, int) {
    (lead * dim, dim + lead)
}

pub open spec fn fallback_length(dim: int) -> (int, int) {
    (dim, 2)
}

/// Letterbox bars on surface `p`.
pub open spec fn letterbox_update(top: int, bottom: int, strict: bool, p: PixelVec2) -> Option<Viewport> {
    let b = letterbox_view(p, top, bottom);
    if bars_fit(p.y as int, top, bottom) {
        pixel_viewport(b)
    } else if strict {
        None
    } else {
        pixel_viewport(
            BoxingView {
                offset_x: b.offset_x,
                offset_y: fallback_offset(top, p.y as int),
                width: b.width,
                height: fallback_length(p.y as int),
            },
        )
    }
}

/// Pillarbox bars on surface `p`.
pub open spec fn pillarbox_update(left: int, right: int, strict: bool, p: PixelVec2) -> Option<Viewport> {
    let b = pillarbox_view(p, left, right);
    if bars_fit(p.x as int, left, right) {
        pixel_viewport(b)
    } else if strict {
        None
    } else {
        pixel_viewport(
            BoxingView {
                offset_x: fallback_offset(left, p.x as int),
                offset_y: b.offset_y,
                width: fallback_length(p.x as int),
                height: b.height,
            },
        )
    }
}

/// Windowbox bars on surface `p`: strict bars need room on both axes, lenient ones fall
/// back on each axis on its own.
pub open spec fn windowbox_update(
    left: int,
    right: int,
    top: int,
    bottom: int,
    strict: bool,
    p: PixelVec2,
) -> Option<Viewport> {
    let b = windowbox_view(p, top, bottom, left, right);
    let fit_x = bars_fit(p.x as int, left, right);
    let fit_y = bars_fit(p.y as int, top, bottom);
    if strict {
        if fit_x && fit_y {
            pixel_viewport(b)
        } else {
            None
        }
    } else {
        pixel_viewport(
            BoxingView {
                offset_x: if fit_x { b.offset_x } else { fallback_offset(left, p.x as int) },
                offset_y: if fit_y { b.offset_y } else { fallback_offset(top, p.y as int) },
                width: if fit_x { b.width } else { fallback_length(p.x as int) },
                height: if fit_y { b.height } else { fallback_length(p.y as int) },
            },
        )
    }
}

/// The viewport that `camera_box` asks for on a render target of size `p`; `None` renders
/// to the full target. A target with a zero side needs no boxing.
pub open spec fn boxed_update(camera_box: CameraBox, p: PixelVec2) -> Option<Viewport> {
    if has_zero_side(p) {
        None
    } else {
        match camera_box {
            CameraBox::StaticResolution { resolution, position } => static_resolution_update(
                resolution,
                position,
                p,
            ),
            CameraBox::StaticAspectRatio { aspect_ratio, position } => aspect_ratio_update(
                aspect_ratio,
                position,
                p,
            ),
            CameraBox::ResolutionIntegerScale { resolution, allow_imperfect_downscaled_boxing } =>
                integer_scale_update(resolution, allow_imperfect_downscaled_boxing, p),
            CameraBox::LetterBox { top, bottom, strict_letterboxing } => letterbox_update(
                top as int,
                bottom as int,
                strict_letterboxing,
                p,
            ),
            CameraBox::PillarBox { left, right, strict_pillarboxing } => pillarbox_update(
                left as int,
                right as int,
                strict_pillarboxing,
                p,
            ),
            CameraBox::WindowBox { left, right, top, bottom, strict_windowboxing } => windowbox_update(
                left as int,
                right as int,
                top as int,
                bottom as int,
                strict_windowboxing,
                p,
            ),
        }
    }
}

/// Whether a box of `size` at `position` lies inside a surface of size `rect`.
pub fn is_within_rect(rect: &PixelVec2, position: &PixelVec2, size: &PixelVec2) -> (r: bool)
    ensures
        r == is_within(*rect, *position, *size),
{
    position.x as u64 + size.x as u64 <= rect.x as u64 && position.y as u64 + size.y as u64
        <= rect.y as u64
}

fn make_viewport(position: PixelVec2, size: PixelVec2) -> (r: Option<Viewport>)
    ensures
        r == viewport_or_clear(position, size),
{
    if size.x == 0 || size.y == 0 {
        None
    } else {
        Some(Viewport { physical_position: position, physical_size: size })
    }
}

fn boxing_size(b: &Boxing) -> (r: PixelVec2)
    requires
        b.wf(),
    ensures
        r == pixel_size(b@),
{
    PixelVec2::new(to_size_px(&b.output_resolution.x), to_size_px(&b.output_resolution.y))
}

/// Turns an exact boxing into a viewport.
fn pixel_update(b: &Boxing) -> (r: Option<Viewport>)
    requires
        b.wf(),
    ensures
        r == pixel_viewport(b@),
{
    let offset = PixelVec2::new(to_offset_px(&b.boxing_offset.x), to_offset_px(&b.boxing_offset.y));
    make_viewport(offset, boxing_size(b))
}

fn static_resolution(
    resolution: PixelVec2,
    position: Option<PixelVec2>,
    p: PixelVec2,
) -> (r: Option<Viewport>)
    ensures
        r == static_resolution_update(resolution, position, p),
{
    if resolution == p && position.is_none() {
        return None;
    }
    let size = PixelVec2::new(
        if resolution.x <= p.x { resolution.x } else { p.x },
        if resolution.y <= p.y { resolution.y } else { p.y },
    );
    match position {
        None => {
            let offset = FracVec2::new(
                Frac::new((p.x - size.x) as i128, 2),
                Frac::new((p.y - size.y) as i128, 2),
            );
            let output = FracVec2::new(Frac::new(size.x as i128, 1), Frac::new(size.y as i128, 1));
            pixel_update(&Boxing::new(offset, output))
        },
        Some(pos) => {
            if is_within_rect(&p, &pos, &size) {
                make_viewport(pos, size)
            } else {
                make_viewport(PixelVec2::new(0, 0), size)
            }
        },
    }
}

fn static_aspect_ratio(aspect_ratio: AspectRatio, position: Option<PixelVec2>, p: PixelVec2) -> (r: Option<Viewport>)
    requires
        !has_zero_side(p),
    ensures
        r == aspect_ratio_update(aspect_ratio, position, p),
{
    if aspect_ratio.width == 0 || aspect_ratio.height == 0 {
        return None;
    }
    let physical_aspect_ratio = match AspectRatio::try_from_size(p) {
        Ok(ar) => ar,
        Err(_) => return None,
    };
    if mul_wide(physical_aspect_ratio.width, aspect_ratio.height) == mul_wide(
        aspect_ratio.width,
        physical_aspect_ratio.height,
    ) {
        return None;
    }
    let b = calculate_boxing_from_aspect_ratios(&p, &physical_aspect_ratio, &aspect_ratio);
    match position {
        None => pixel_update(&b),
        Some(pos) => {
            let size = boxing_size(&b);
            if is_within_rect(&p, &pos, &size) {
                make_viewport(pos, size)
            } else {
                make_viewport(PixelVec2::new(0, 0), size)
            }
        },
    }
}

fn integer_scale(resolution: PixelVec2, imperfect: bool, p: PixelVec2) -> (r: Option<Viewport>)
    requires
        !has_zero_side(p),
    ensures
        r == integer_scale_update(resolution, imperfect, p),
{
    let boxing = if imperfect {
        calculate_boxing_imperfect(&p, &resolution)
    } else {
        calculate_boxing_perfect(&p, &resolution)
    };
    match boxing {
        Ok(Some(b)) => pixel_update(&b),
        Ok(None) => None,
        Err(_) => None,
    }
}

/// The fallback box of lenient bars on an axis of length `dim` with leading bar `lead`:
/// its offset and its length.
fn fallback_box(lead: u32, dim: u32) -> (r: (Frac, Frac))
    requires
        dim > 0,
    ensures
        r.0.wf(),
        r.1.wf(),
        r.0@ == fallback_offset(lead as int, dim as int),
        r.1@ == fallback_length(dim as int),
{
    let num = mul_wide(lead, dim);
    (Frac::new(num, dim as i128 + lead as i128), Frac::new(dim as i128, 2))
}

fn letterbox(top: u32, bottom: u32, strict: bool, p: PixelVec2) -> (r: Option<Viewport>)
    requires
        !has_zero_side(p),
    ensures
        r == letterbox_update(top as int, bottom as int, strict, p),
{
    let mut b = calculate_letterbox(&p, (top, bottom));
    if b.output_resolution.y.num <= 0 {
        if strict {
            return None;
        }
        let (offset, length) = fallback_box(top, p.y);
        b.boxing_offset.y = offset;
        b.output_resolution.y = length;
    }
    pixel_update(&b)
}

fn pillarbox(left: u32, right: u32, strict: bool, p: PixelVec2) -> (r: Option<Viewport>)
    requires
        !has_zero_side(p),
    ensures
        r == pillarbox_update(left as int, right as int, strict, p),
{
    let mut b = calculate_pillarbox(&p, (left, right));
    if b.output_resolution.x.num <= 0 {
        if strict {
            return None;
        }
        let (offset, length) = fallback_box(left, p.x);
        b.boxing_offset.x = offset;
        b.output_resolution.x = length;
    }
    pixel_update(&b)
}

fn windowbox(left: u32, right: u32, top: u32, bottom: u32, strict: bool, p: PixelVec2) -> (r: Option<Viewport>)
    requires
        !has_zero_side(p),
    ensures
        r == windowbox_update(left as int, right as int, top as int, bottom as int, strict, p),
{
    let mut b = calculate_windowbox(&p, [(top, bottom), (left, right)]);
    let fit_x = b.output_resolution.x.num > 0;
    let fit_y = b.output_resolution.y.num > 0;
    if strict {
        if !(fit_x && fit_y) {
            return None;
        }
    } else {
        if !fit_x {
            let (offset, length) = fallback_box(left, p.x);
            b.boxing_offset.x = offset;
            b.output_resolution.x = length;
        }
        if !fit_y {
            let (offset, length) = fallback_box(top, p.y);
            b.boxing_offset.y = offset;
            b.output_resolution.y = length;
        }
    }
    pixel_update(&b)
}

/// The viewport that `camera_box` asks for on a render target of size `physical_size`;
/// `None` renders to the full target.
pub fn viewport_update(camera_box: &CameraBox, physical_size: PixelVec2) -> (r: Option<Viewport>)
    ensures
        r == boxed_update(*camera_box, physical_size),
{
    let p = physical_size;
    if p.x == 0 || p.y == 0 {
        return None;
    }
    match *camera_box {
        CameraBox::StaticResolution { resolution, position } => static_resolution(
            resolution,
            position,
            p,
        ),
        CameraBox::StaticAspectRatio { aspect_ratio, position } => static_aspect_ratio(
            aspect_ratio,
            position,
            p,
        ),
        CameraBox::ResolutionIntegerScale { resolution, allow_imperfect_downscaled_boxing } =>
            integer_scale(resolution, allow_imperfect_downscaled_boxing, p),
        CameraBox::LetterBox { top, bottom, strict_letterboxing } => letterbox(
            top,
            bottom,
            strict_letterboxing,
            p,
        ),
        CameraBox::PillarBox { left, right, strict_pillarboxing } => pillarbox(
            left,
            right,
            strict_pillarboxing,
            p,
        ),
        CameraBox::WindowBox { left, right, top, bottom, strict_windowboxing } => windowbox(
            left,
            right,
            top,
            bottom,
            strict_windowboxing,
            p,
        ),
    }
}

/// A camera as the applier sees it.
#[derive(Clone, Copy, Debug, PartialEq, Eq, Structural)]
pub struct BoxedCamera {
    /// Inactive cameras are skipped.
    pub is_active: bool,
    /// The physical size of the camera's render target, or `None` when the target could not
    /// be resolved this cycle; such a camera is skipped.
    pub target_size: Option<PixelVec2>,
    pub camera_box: CameraBox,
    /// `None` renders to the full target.
    pub viewport: Option<Viewport>,
}

/// A camera after one run of the applier.
pub open spec fn adjusted(c: BoxedCamera) -> BoxedCamera {
    match c.target_size {
        Some(p) => if c.is_active {
            BoxedCamera { viewport: boxed_update(c.camera_box, p), ..c }
        } else {
            c
        },
        None => c,
    }
}

/// All cameras after one run of the applier.
pub open spec fn adjusted_all(cameras: Seq<BoxedCamera>) -> Seq<BoxedCamera> {
    cameras.map_values(|c: BoxedCamera| adjusted(c))
}

/// Recomputes the viewport of every active camera whose target size is known.
pub fn adjust_viewport(cameras: &mut Vec<BoxedCamera>)
    ensures
        final(cameras)@ == adjusted_all(old(cameras)@),
{
    let mut i: usize = 0;
    while i < cameras.len()
        invariant
            0 <= i <= cameras.len(),
            cameras@.len() == old(cameras)@.len(),
            forall|j: int| 0 <= j < i ==> cameras@[j] == adjusted(old(cameras)@[j]),
            forall|j: int| i <= j < cameras@.len() ==> cameras@[j] == old(cameras)@[j],
        decreases cameras.len() - i,
    {
        let c = cameras[i];
        if c.is_active {
            if let Some(p) = c.target_size {
                let viewport = viewport_update(&c.camera_box, p);
                cameras.set(i, BoxedCamera { viewport, ..c });
            }
        }
        i = i + 1;
    }
    assert(cameras@ =~= adjusted_all(old(cameras)@));
}

/// Running the applier on a camera a second time, with nothing changed in between, leaves
/// its viewport exactly as the first run left it.
pub proof fn lemma_adjusted_idempotent(c: BoxedCamera)
    ensures
        adjusted(adjusted(c)) == adjusted(c),
{
}

/// Running the applier twice in succession, with no change in between, gives the same
/// cameras as running it once.
pub proof fn lemma_adjust_viewport_idempotent(cameras: Seq<BoxedCamera>)
    ensures
        adjusted_all(adjusted_all(cameras)) == adjusted_all(cameras),
{
    assert forall|i: int| 0 <= i < cameras.len() implies adjusted_all(adjusted_all(cameras))[i]
        == adjusted_all(cameras)[i] by {
        lemma_adjusted_idempotent(cameras[i]);
    }
    assert(adjusted_all(adjusted_all(cameras)) =~= adjusted_all(cameras));
}

/// A static resolution equal to the target's size, with no position, clears the viewport.
pub proof fn lemma_exact_resolution_clears(physical_size: PixelVec2)
    ensures
        boxed_update(
            CameraBox::StaticResolution { resolution: physical_size, position: None },
            physical_size,
        ) is None,
{
}

} // verus!
