//! Screen boxing: where inside a render surface a camera's output should go, so that it keeps
//! a fixed resolution, a fixed aspect ratio, an integer scale of a reference resolution, or
//! fixed letterbox / pillarbox / windowbox bars.
//!
//! All geometry is exact: sizes are whole pixels, intermediate values are fractions, and the
//! only rounding happens when a result is turned into a viewport (sizes truncate, offsets
//! round to the nearest pixel).
//!
//! - [`calculate`]: the boxing calculator, one pure function per policy.
//! - [`applier`]: the viewport each policy asks for, and the pass over all cameras.
//! - [`schedule`]: the change tracker that decides when the applier runs.
//! - [`containment`]: the proof that every viewport the applier leaves lies inside its
//!   target, for every policy but lenient bars whose leading bar is longer than the target.

pub mod applier;
pub mod calculate;
pub mod containment;
pub mod geometry;
pub mod policy;
pub mod schedule;

pub use applier::{adjust_viewport, is_within_rect, viewport_update, BoxedCamera};
pub use calculate::{
    calculate_boxing_from_aspect_ratios, calculate_boxing_imperfect, calculate_boxing_perfect,
    calculate_letterbox, calculate_pillarbox, calculate_windowbox,
};
pub use geometry::{Boxing, Frac, FracVec2, PixelVec2, Viewport};
pub use policy::{AspectRatio, AspectRatioError, CameraBox};
pub use schedule::{ChangeSource, ChangeTracker};
