use vstd::prelude::*;

verus! {

/// Which corner of the stored image is the geometric origin of the atlas.
/// Bounding boxes are read relative to this corner.
#[derive(Copy, Clone, Debug, PartialEq, Eq, Structural)]
pub enum Origin {
    /// The atlas image starts in the top left corner of the image, with the x-axis
    /// pointing right, and the y-axis pointing down.
    TopLeft,
    /// The atlas image starts in the bottom left corner of the image, with the x-axis
    /// pointing right, and the y-axis pointing up.
    BottomLeft,
}

/// Conditions met while decoding an atlas that do not stop the decoding but
/// may degrade the atlas in graphics applications.
#[derive(Copy, Clone, Debug, PartialEq, Eq, Structural)]
pub enum TextureAtlas2DWarning {
    /// No warnings occurred.
    NoWarnings,
    /// The texture image dimensions are not a power of two. Texture image dimensions that
    /// are a power of two are easier to index into for graphics hardware.
    TextureDimensionsAreNotAPowerOfTwo,
}

/// The position of a point in terms of the raw pixel position in the image.
#[derive(Copy, Clone, Debug, PartialEq, Eq, Structural)]
pub struct OffsetPixelCoords {
    /// The horizontal coordinate.
    pub u: usize,
    /// The vertical coordinate, measured from the atlas origin.
    pub v: usize,
}

/// The position and dimensions of a bounding box in pixels.
#[derive(Copy, Clone, Debug, PartialEq, Eq, Structural)]
pub struct BoundingBoxPixelCoords {
    /// The position of the top left corner of the bounding box.
    pub top_left: OffsetPixelCoords,
    /// The width in pixels of the bounding box.
    pub width: usize,
    /// The height in pixels of the bounding box.
    pub height: usize,
}

/// The four corners of a bounding box in pixels.
#[derive(Copy, Clone, Debug, PartialEq, Eq, Structural)]
pub struct BoundingBoxCornersPixelCoords {
    /// The top left corner of the bounding box.
    pub top_left: OffsetPixelCoords,
    /// The top right corner of the bounding box.
    pub top_right: OffsetPixelCoords,
    /// The bottom left corner of the bounding box.
    pub bottom_left: OffsetPixelCoords,
    /// The bottom right corner of the bounding box.
    pub bottom_right: OffsetPixelCoords,
}

/// A coordinate in the unit interval, held exactly as the fraction
/// `numerator / denominator`, where the denominator is an atlas dimension.
#[derive(Copy, Clone, Debug, PartialEq, Eq, Structural)]
pub struct TexCoord {
    /// The coordinate in pixels.
    pub numerator: usize,
    /// The atlas dimension along the same axis, in pixels.
    pub denominator: usize,
}

/// The position of a point in texture coordinates of the unit square [0,1] x [0,1].
#[derive(Copy, Clone, Debug, PartialEq, Eq, Structural)]
pub struct OffsetTexCoords {
    /// The horizontal coordinate.
    pub u: TexCoord,
    /// The vertical coordinate.
    pub v: TexCoord,
}

/// The position and dimensions of a bounding box in texture coordinates of
/// the unit square [0,1] x [0,1].
#[derive(Copy, Clone, Debug, PartialEq, Eq, Structural)]
pub struct BoundingBoxTexCoords {
    /// The position of the top left corner of the bounding box.
    pub top_left: OffsetTexCoords,
    /// The width of the bounding box.
    pub width: TexCoord,
    /// The height of the bounding box.
    pub height: TexCoord,
}

/// The four corners of a bounding box in texture coordinates.
#[derive(Copy, Clone, Debug, PartialEq, Eq, Structural)]
pub struct BoundingBoxCornersTexCoords {
    /// The top left corner of the bounding box.
    pub top_left: OffsetTexCoords,
    /// The top right corner of the bounding box.
    pub top_right: OffsetTexCoords,
    /// The bottom left corner of the bounding box.
    pub bottom_left: OffsetTexCoords,
    /// The bottom right corner of the bounding box.
    pub bottom_right: OffsetTexCoords,
}

/// The pixel point `(u, v)` in the texture coordinates of a `width` x `height` atlas.
pub open spec fn spec_offset_to_tex(p: OffsetPixelCoords, width: usize, height: usize) -> OffsetTexCoords {
    OffsetTexCoords {
        u: TexCoord { numerator: p.u, denominator: width },
        v: TexCoord { numerator: p.v, denominator: height },
    }
}

/// A pixel bounding box in the texture coordinates of a `width` x `height`
/// atlas; there are none for an atlas with no area.
pub open spec fn spec_pixel_to_tex(b: BoundingBoxPixelCoords, width: usize, height: usize) -> Option<
    BoundingBoxTexCoords,
> {
    if width == 0 || height == 0 {
        None
    } else {
        Some(
            BoundingBoxTexCoords {
                top_left: spec_offset_to_tex(b.top_left, width, height),
                width: TexCoord { numerator: b.width, denominator: width },
                height: TexCoord { numerator: b.height, denominator: height },
            },
        )
    }
}

/// The row of the lower edge of a box whose upper edge is on row `v`. Rows
/// count upwards from a bottom left origin and downwards from a top left one.
pub open spec fn spec_lower_edge(v: usize, height: usize, origin: Origin) -> int {
    match origin {
        Origin::BottomLeft => v - height,
        Origin::TopLeft => v + height,
    }
}

/// The corners of a pixel bounding box read from `origin`, where all of them
/// are pixel positions; none where a corner falls outside the `usize` range.
pub open spec fn spec_corners(b: BoundingBoxPixelCoords, origin: Origin) -> Option<
    BoundingBoxCornersPixelCoords,
> {
    let right = b.top_left.u + b.width;
    let lower = spec_lower_edge(b.top_left.v, b.height, origin);
    if right <= usize::MAX && 0 <= lower <= usize::MAX {
        Some(
            BoundingBoxCornersPixelCoords {
                top_left: b.top_left,
                top_right: OffsetPixelCoords { u: right as usize, v: b.top_left.v },
                bottom_left: OffsetPixelCoords { u: b.top_left.u, v: lower as usize },
                bottom_right: OffsetPixelCoords { u: right as usize, v: lower as usize },
            },
        )
    } else {
        None
    }
}

/// Pixel corners in the texture coordinates of a `width` x `height` atlas.
pub open spec fn spec_corners_to_tex(
    c: BoundingBoxCornersPixelCoords,
    width: usize,
    height: usize,
) -> BoundingBoxCornersTexCoords {
    BoundingBoxCornersTexCoords {
        top_left: spec_offset_to_tex(c.top_left, width, height),
        top_right: spec_offset_to_tex(c.top_right, width, height),
        bottom_left: spec_offset_to_tex(c.bottom_left, width, height),
        bottom_right: spec_offset_to_tex(c.bottom_right, width, height),
    }
}

/// The corners of a pixel bounding box in the texture coordinates of a
/// `width` x `height` atlas.
pub open spec fn spec_corners_uv(
    b: BoundingBoxPixelCoords,
    origin: Origin,
    width: usize,
    height: usize,
) -> Option<BoundingBoxCornersTexCoords> {
    match spec_corners(b, origin) {
        Some(c) => if width == 0 || height == 0 {
            None
        } else {
            Some(spec_corners_to_tex(c, width, height))
        },
        None => None,
    }
}

impl OffsetPixelCoords {
    #[inline]
    pub fn new(u: usize, v: usize) -> (r: OffsetPixelCoords)
        ensures
            r.u == u,
            r.v == v,
    {
        OffsetPixelCoords { u: u, v: v }
    }
}

impl BoundingBoxPixelCoords {
    #[inline]
    pub fn new(top_left: OffsetPixelCoords, width: usize, height: usize) -> (r: BoundingBoxPixelCoords)
        ensures
            r.top_left == top_left,
            r.width == width,
            r.height == height,
    {
        BoundingBoxPixelCoords { top_left: top_left, width: width, height: height }
    }
}

impl OffsetTexCoords {
    #[inline]
    pub fn new(u: TexCoord, v: TexCoord) -> (r: OffsetTexCoords)
        ensures
            r.u == u,
            r.v == v,
    {
        OffsetTexCoords { u: u, v: v }
    }
}

impl BoundingBoxTexCoords {
    #[inline]
    pub fn new(top_left: OffsetTexCoords, width: TexCoord, height: TexCoord) -> (r: BoundingBoxTexCoords)
        ensures
            r.top_left == top_left,
            r.width == width,
            r.height == height,
    {
        BoundingBoxTexCoords { top_left: top_left, width: width, height: height }
    }
}

fn offset_to_tex(p: OffsetPixelCoords, width: usize, height: usize) -> (r: OffsetTexCoords)
    ensures
        r == spec_offset_to_tex(p, width, height),
{
    OffsetTexCoords::new(
        TexCoord { numerator: p.u, denominator: width },
        TexCoord { numerator: p.v, denominator: height },
    )
}

/// Express a pixel bounding box in the texture coordinates of a
/// `width` x `height` atlas. Each coordinate is the pixel quantity over the
/// atlas dimension along its axis; an atlas with no area has none.
pub fn pixel_to_tex(b: BoundingBoxPixelCoords, width: usize, height: usize) -> (r: Option<
    BoundingBoxTexCoords,
>)
    ensures
        r == spec_pixel_to_tex(b, width, height),
{
    if width == 0 || height == 0 {
        return None;
    }
    let top_left = offset_to_tex(b.top_left, width, height);
    Some(
        BoundingBoxTexCoords::new(
            top_left,
            TexCoord { numerator: b.width, denominator: width },
            TexCoord { numerator: b.height, denominator: height },
        ),
    )
}

/// Derive the four corners of a pixel bounding box. From a bottom left
/// origin rows count upwards, so the lower corners lie `height` rows below
/// the top edge at `v - height`; from a top left origin rows count downwards
/// and the lower corners lie at `v + height`. The right corners lie at
/// `u + width`. Returns `None` when a corner is not a pixel position.
pub fn corners_of(b: BoundingBoxPixelCoords, origin: Origin) -> (r: Option<BoundingBoxCornersPixelCoords>)
    ensures
        r == spec_corners(b, origin),
{
    let u = b.top_left.u;
    let v = b.top_left.v;
    if b.width > usize::MAX - u {
        return None;
    }
    let right = u + b.width;
    let lower = match origin {
        Origin::BottomLeft => {
            if v < b.height {
                return None;
            }
            v - b.height
        },
        Origin::TopLeft => {
            if b.height > usize::MAX - v {
                return None;
            }
            v + b.height
        },
    };
    Some(
        BoundingBoxCornersPixelCoords {
            top_left: b.top_left,
            top_right: OffsetPixelCoords::new(right, v),
            bottom_left: OffsetPixelCoords::new(u, lower),
            bottom_right: OffsetPixelCoords::new(right, lower),
        },
    )
}

/// Derive the four corners of a pixel bounding box, as `corners_of` does,
/// in the texture coordinates of a `width` x `height` atlas.
pub fn corners_of_uv(b: BoundingBoxPixelCoords, origin: Origin, width: usize, height: usize) -> (r: Option<
    BoundingBoxCornersTexCoords,
>)
    ensures
        r == spec_corners_uv(b, origin, width, height),
{
    match corners_of(b, origin) {
        Some(c) => {
            if width == 0 || height == 0 {
                return None;
            }
            Some(
                BoundingBoxCornersTexCoords {
                    top_left: offset_to_tex(c.top_left, width, height),
                    top_right: offset_to_tex(c.top_right, width, height),
                    bottom_left: offset_to_tex(c.bottom_left, width, height),
                    bottom_right: offset_to_tex(c.bottom_right, width, height),
                },
            )
        },
        None => None,
    }
}

} // verus!
