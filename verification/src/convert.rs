//! The decisions of the raster converter: how the raster is sized, and which
//! sizes are refused.

use crate::number::Number;
use vstd::prelude::*;
use vstd::string::*;

verus! {

/// The largest width or height, in pixels, of a raster that can be rendered.
pub const MAX_RASTER_DIMENSION: u32 = 32767;

/// Horizontal and vertical zoom factors.
#[derive(Clone, Copy, Debug, PartialEq, Eq, Structural)]
pub struct Scale {
    pub x: Number,
    pub y: Number,
}

impl Scale {
    pub fn new(x: Number, y: Number) -> (s: Scale)
        ensures
            s.x == x,
            s.y == y,
    {
        Scale { x, y }
    }

    /// A zoom that leaves sizes as they are: both factors are one.
    pub open spec fn spec_is_identity(self) -> bool {
        self.x.is_one() && self.y.is_one()
    }

    #[verifier::when_used_as_spec(spec_is_identity)]
    pub fn is_identity(self) -> (identity: bool)
        ensures
            identity == self.spec_is_identity(),
    {
        self.x.is_one() && self.y.is_one()
    }
}

/// How the size of the raster is derived from the size of the document.
#[derive(Clone, Copy, Debug, PartialEq, Eq, Structural)]
pub enum ResizeStrategy {
    /// Scale the document by the zoom.
    Scale(Scale),
    /// Fit the document exactly into the width and height.
    Fit(u32, u32),
    /// Fit the width; the height follows by the same factor.
    FitWidth(u32),
    /// Fit the height; the width follows by the same factor.
    FitHeight(u32),
    /// Scale by the zoom, capped to the width and height that were asked for.
    FitLargestScale(Scale, Option<u32>, Option<u32>),
}

/// The strategy that a requested width, height and zoom select.
pub open spec fn selected_strategy(
    width: Option<u32>,
    height: Option<u32>,
    zoom: Scale,
) -> ResizeStrategy {
    match (width, height) {
        (None, None) => ResizeStrategy::Scale(zoom),
        (Some(w), Some(h)) if zoom.is_identity() => ResizeStrategy::Fit(w, h),
        (Some(w), None) if zoom.is_identity() => ResizeStrategy::FitWidth(w),
        (None, Some(h)) if zoom.is_identity() => ResizeStrategy::FitHeight(h),
        _ => ResizeStrategy::FitLargestScale(zoom, width, height),
    }
}

/// Selects the resize strategy from the presence of a requested width and
/// height and from the zoom.
///
/// Without width and height the document is scaled by the zoom. With a zoom
/// that is the identity, the dimensions that were given are fitted. In every
/// other case the document is scaled by the zoom, capped to what was given.
pub fn resize_strategy(width: Option<u32>, height: Option<u32>, zoom: Scale) -> (strategy:
    ResizeStrategy)
    ensures
        strategy == selected_strategy(width, height, zoom),
        width is None && height is None ==> strategy == ResizeStrategy::Scale(zoom),
        width is Some && height is Some && zoom.is_identity() ==> strategy == ResizeStrategy::Fit(
            width->0,
            height->0,
        ),
        width is Some && height is None && zoom.is_identity() ==> strategy
            == ResizeStrategy::FitWidth(width->0),
        width is None && height is Some && zoom.is_identity() ==> strategy
            == ResizeStrategy::FitHeight(height->0),
        (width is Some || height is Some) && !zoom.is_identity() ==> strategy
            == ResizeStrategy::FitLargestScale(zoom, width, height),
{
    let identity = zoom.is_identity();
    match (width, height) {
        (None, None) => ResizeStrategy::Scale(zoom),
        (Some(w), Some(h)) if identity => ResizeStrategy::Fit(w, h),
        (Some(w), None) if identity => ResizeStrategy::FitWidth(w),
        (None, Some(h)) if identity => ResizeStrategy::FitHeight(h),
        _ => ResizeStrategy::FitLargestScale(zoom, width, height),
    }
}

/// A failure that ends the run: the text for the error stream and the exit
/// status of the process.
#[derive(Debug)]
pub struct Failure {
    pub message: String,
    pub status: i32,
}

/// The diagnostic for a raster that is too large.
pub const SIZE_LIMIT_DIAGNOSTIC: &'static str =
    "The resulting image would be larger than 32767 pixels on either dimension.\n\
     Librsvg currently cannot render to images bigger than that.\n\
     Please specify a smaller size.";

/// Whether a raster of this size is over the limit in either dimension.
pub open spec fn over_size_limit(width: u32, height: u32) -> bool {
    width > MAX_RASTER_DIMENSION || height > MAX_RASTER_DIMENSION
}

/// The failure for a raster that is too large: the fixed diagnostic, with exit
/// status 1.
pub fn size_limit_exceeded() -> (failure: Failure)
    ensures
        failure.message@ == SIZE_LIMIT_DIAGNOSTIC@,
        failure.status == 1,
{
    Failure {
        message: String::from_str(SIZE_LIMIT_DIAGNOSTIC),
        status: 1,
    }
}

/// Admits a raster size, or refuses it with the size-limit failure when
/// either dimension is above `MAX_RASTER_DIMENSION`.
pub fn check_raster_size(width: u32, height: u32) -> (checked: Result<(), Failure>)
    ensures
        checked is Err <==> over_size_limit(width, height),
        checked matches Err(failure) ==> failure.message@ == SIZE_LIMIT_DIAGNOSTIC@
            && failure.status == 1,
{
    if width > MAX_RASTER_DIMENSION || height > MAX_RASTER_DIMENSION {
        Err(size_limit_exceeded())
    } else {
        Ok(())
    }
}

} // verus!
