use vstd::prelude::*;

verus! {

/// A pair of whole pixel counts: a size or a position on a render surface.
#[derive(Clone, Copy, Debug, PartialEq, Eq, Structural)]
pub struct PixelVec2 {
    pub x: u32,
    pub y: u32,
}

impl PixelVec2 {
    pub fn new(x: u32, y: u32) -> (r: PixelVec2)
        ensures
            r.x == x,
            r.y == y,
    {
        PixelVec2 { x, y }
    }
}

/// The rectangle of a render surface that a camera draws into.
#[derive(Clone, Copy, Debug, PartialEq, Eq, Structural)]
pub struct Viewport {
    pub physical_position: PixelVec2,
    pub physical_size: PixelVec2,
}

/// Whether a viewport lies inside a surface of the given size.
pub open spec fn fits_within(v: Viewport, surface: PixelVec2) -> bool {
    &&& v.physical_position.x + v.physical_size.x <= surface.x
    &&& v.physical_position.y + v.physical_size.y <= surface.y
}

/// An exact fraction `num / den` of pixels.
#[derive(Clone, Copy, Debug)]
pub struct Frac {
    pub num: i128,
    pub den: i128,
}

/// Bound on the numerators this crate produces; it leaves room for the rounding arithmetic.
pub const NUM_BOUND: i128 = 0x1_0000_0000_0000_0000_0000;

/// Bound on the denominators this crate produces.
pub const DEN_BOUND: i128 = 0x1_0000_0000_0000_0000;

impl View for Frac {
    type V = (int, int);

    open spec fn view(&self) -> (int, int) {
        (self.num as int, self.den as int)
    }
}

/// The fraction `n / 1`.
pub open spec fn whole(n: int) -> (int, int) {
    (n, 1)
}

impl Frac {
    pub open spec fn wf(&self) -> bool {
        &&& 0 < self.den <= DEN_BOUND
        &&& -NUM_BOUND <= self.num <= NUM_BOUND
    }

    pub fn new(num: i128, den: i128) -> (r: Frac)
        ensures
            r@ == (num as int, den as int),
    {
        Frac { num, den }
    }
}

/// A pair of exact fractions.
#[derive(Clone, Copy, Debug)]
pub struct FracVec2 {
    pub x: Frac,
    pub y: Frac,
}

impl FracVec2 {
    pub fn new(x: Frac, y: Frac) -> (r: FracVec2)
        ensures
            r.x == x,
            r.y == y,
    {
        FracVec2 { x, y }
    }

    pub open spec fn wf(&self) -> bool {
        self.x.wf() && self.y.wf()
    }
}

/// Where a boxed output goes (`boxing_offset`) and how large it is (`output_resolution`),
/// before conversion to whole pixels.
#[derive(Clone, Copy, Debug)]
pub struct Boxing {
    pub boxing_offset: FracVec2,
    pub output_resolution: FracVec2,
}

/// The exact value of a [`Boxing`]: each coordinate as a (numerator, denominator) pair.
pub struct BoxingView {
    pub offset_x: (int, int),
    pub offset_y: (int, int),
    pub width: (int, int),
    pub height: (int, int),
}

impl View for Boxing {
    type V = BoxingView;

    open spec fn view(&self) -> BoxingView {
        BoxingView {
            offset_x: self.boxing_offset.x@,
            offset_y: self.boxing_offset.y@,
            width: self.output_resolution.x@,
            height: self.output_resolution.y@,
        }
    }
}

impl Boxing {
    pub fn new(boxing_offset: FracVec2, output_resolution: FracVec2) -> (r: Boxing)
        ensures
            r.boxing_offset == boxing_offset,
            r.output_resolution == output_resolution,
    {
        Boxing { boxing_offset, output_resolution }
    }

    pub open spec fn wf(&self) -> bool {
        self.boxing_offset.wf() && self.output_resolution.wf()
    }
}

/// A size converted to whole pixels: truncated toward zero, negative values give zero, and
/// values past `u32::MAX` saturate.
pub open spec fn size_px(f: (int, int)) -> int {
    if f.0 <= 0 {
        0
    } else if f.0 / f.1 > u32::MAX {
        u32::MAX as int
    } else {
        f.0 / f.1
    }
}

/// An offset converted to whole pixels: rounded to the nearest pixel (halves away from
/// zero), negative values give zero, and values past `u32::MAX` saturate.
pub open spec fn offset_px(f: (int, int)) -> int {
    if f.0 <= 0 {
        0
    } else if (2 * f.0 + f.1) / (2 * f.1) > u32::MAX {
        u32::MAX as int
    } else {
        (2 * f.0 + f.1) / (2 * f.1)
    }
}

pub fn to_size_px(f: &Frac) -> (r: u32)
    requires
        f.wf(),
    ensures
        r == size_px(f@),
{
    if f.num <= 0 {
        0
    } else {
        let q: u128 = (f.num as u128) / (f.den as u128);
        if q > u32::MAX as u128 {
            u32::MAX
        } else {
            q as u32
        }
    }
}

pub fn to_offset_px(f: &Frac) -> (r: u32)
    requires
        f.wf(),
    ensures
        r == offset_px(f@),
{
    if f.num <= 0 {
        0
    } else {
        let n: u128 = 2 * (f.num as u128) + (f.den as u128);
        let d: u128 = 2 * (f.den as u128);
        let q: u128 = n / d;
        if q > u32::MAX as u128 {
            u32::MAX
        } else {
            q as u32
        }
    }
}

} // verus!
