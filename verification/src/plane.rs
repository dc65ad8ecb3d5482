use vstd::prelude::*;

verus! {

/// Width of a rendered frame, in pixels.
pub const WIDTH: u32 = 1920;

/// Height of a rendered frame, in pixels.
pub const HEIGHT: u32 = 1080;

/// Twice the signed distance, in pixels, from the middle of an axis of
/// `extent` pixels to pixel `i`.
pub open spec fn axis_offset(i: nat, extent: nat) -> int {
    2 * i - extent
}

/// Where a pixel lies on the plane, as exact ratios of the zoom: the point
/// is `(zoom * x_num / den, zoom * y_num / den)`.
///
/// Both axes share `den`, so a pixel covers a square of the plane whatever
/// the shape of the image.
#[derive(Clone, Copy, Debug, PartialEq, Eq, Structural)]
pub struct PlaneRatio {
    pub x_num: i64,
    pub y_num: i64,
    pub den: u64,
}

/// Maps pixel `(i, j)` of a `width` by `height` image to the plane, centred
/// on the origin: `x = zoom * (i - width / 2) / width` and
/// `y = (zoom / width) * (j - height / 2)`, with the zoom left to the caller.
pub fn pixel_to_plane(i: u32, j: u32, width: u32, height: u32) -> (p: PlaneRatio)
    ensures
        p.x_num == axis_offset(i as nat, width as nat),
        p.y_num == axis_offset(j as nat, height as nat),
        p.den == 2 * width,
{
    PlaneRatio {
        x_num: 2 * (i as i64) - (width as i64),
        y_num: 2 * (j as i64) - (height as i64),
        den: 2 * (width as u64),
    }
}

/// The middle pixel of an image with even sides maps to the origin.
pub proof fn lemma_centre_maps_to_origin(width: nat, height: nat)
    requires
        width % 2 == 0,
        height % 2 == 0,
    ensures
        axis_offset(width / 2, width) == 0,
        axis_offset(height / 2, height) == 0,
{
}

/// Across the image the abscissa runs over one zoom, from half a zoom left
/// of the origin to just under half a zoom right of it, in equal steps.
pub proof fn lemma_width_spans_one_zoom(i: nat, width: nat)
    requires
        i < width,
    ensures
        -(width as int) <= axis_offset(i, width) < width,
        axis_offset(i + 1, width) - axis_offset(i, width) == 2,
{
}

} // verus!
