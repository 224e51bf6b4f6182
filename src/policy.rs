use vstd::prelude::*;
use crate::geometry::PixelVec2;

verus! {

/// A width-to-height ratio, kept as two whole numbers so that comparisons are exact.
#[derive(Clone, Copy, Debug, PartialEq, Eq, Structural)]
pub struct AspectRatio {
    pub width: u32,
    pub height: u32,
}

/// Why an aspect ratio could not be formed.
#[derive(Clone, Copy, Debug, PartialEq, Eq, Structural)]
pub enum AspectRatioError {
    /// The width or the height is zero.
    Zero,
}

impl AspectRatio {
    /// Both sides are positive, so the ratio is finite and non-zero.
    pub open spec fn wf(&self) -> bool {
        self.width > 0 && self.height > 0
    }

    pub fn try_new(width: u32, height: u32) -> (r: Result<AspectRatio, AspectRatioError>)
        ensures
            width > 0 && height > 0 <==> r is Ok,
            r matches Ok(ar) ==> ar.width == width && ar.height == height,
            r matches Err(e) ==> e == AspectRatioError::Zero,
    {
        if width == 0 || height == 0 {
            Err(AspectRatioError::Zero)
        } else {
            Ok(AspectRatio { width, height })
        }
    }

    /// The ratio of a surface of the given size.
    pub fn try_from_size(size: PixelVec2) -> (r: Result<AspectRatio, AspectRatioError>)
        ensures
            size.x > 0 && size.y > 0 <==> r is Ok,
            r matches Ok(ar) ==> ar.width == size.x && ar.height == size.y,
            r matches Err(e) ==> e == AspectRatioError::Zero,
    {
        AspectRatio::try_new(size.x, size.y)
    }
}

/// `a` is strictly wider than `b`: `a.width / a.height > b.width / b.height`.
pub open spec fn is_wider(a: AspectRatio, b: AspectRatio) -> bool {
    a.width * b.height > b.width * a.height
}

/// `a` and `b` are the same ratio.
pub open spec fn same_ratio(a: AspectRatio, b: AspectRatio) -> bool {
    a.width * b.height == b.width * a.height
}

/// How a camera's output is boxed within its render target.
#[derive(Clone, Copy, Debug, PartialEq, Eq, Structural)]
pub enum CameraBox {
    /// Keep the output at a static resolution, boxed when the target is larger. When the
    /// target is smaller the output is clamped to the target's size. `position` places the
    /// box; without it the box is centered.
    StaticResolution { resolution: PixelVec2, position: Option<PixelVec2> },
    /// Keep the output at a static aspect ratio, boxing it into the largest rectangle of that
    /// ratio. `position` places the box; without it the box is centered.
    StaticAspectRatio { aspect_ratio: AspectRatio, position: Option<PixelVec2> },
    /// Keep the output at an integer scale of `resolution`. When the target is smaller than
    /// `resolution` and `allow_imperfect_downscaled_boxing` holds, the downscaled output fills
    /// one axis and its ratio may drift; otherwise it keeps the exact ratio.
    ResolutionIntegerScale { resolution: PixelVec2, allow_imperfect_downscaled_boxing: bool },
    /// Bars above and below the output. When they do not leave room for any output, a strict
    /// policy gives up boxing and a lenient one falls back to a half-height box.
    LetterBox { top: u32, bottom: u32, strict_letterboxing: bool },
    /// Bars left and right of the output, with the same strict / lenient fallback.
    PillarBox { left: u32, right: u32, strict_pillarboxing: bool },
    /// Bars on all four sides. A strict policy needs room on both axes; a lenient one falls
    /// back on each axis on its own.
    WindowBox { left: u32, right: u32, top: u32, bottom: u32, strict_windowboxing: bool },
}

} // verus!
