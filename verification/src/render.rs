//! Geometry of the full-screen quad that a compositing stage is drawn on.

use vstd::prelude::*;
use crate::clip::Clip;
use crate::image::ImageId;

verus! {

/// A quad that covers the whole of clip space, from -1 to 1 on both axes.
#[derive(Debug, Copy, Clone, Default)]
pub struct FsQuad {}

/// One corner of the quad, in whole units.
#[derive(Debug, Copy, Clone, PartialEq, Eq, Structural)]
pub struct QuadVertex {
    /// Horizontal position, -1 or 1.
    pub x: i8,
    /// Vertical position, -1 or 1.
    pub y: i8,
    /// Horizontal texture coordinate, equal to `x`.
    pub u: i8,
    /// Vertical texture coordinate, `y` mirrored.
    pub v: i8,
}

/// The four corners, counter-clockwise from the lower right.
pub open spec fn quad_corners() -> Seq<QuadVertex> {
    seq![
        QuadVertex { x: 1i8, y: -1i8, u: 1i8, v: 1i8 },
        QuadVertex { x: 1i8, y: 1i8, u: 1i8, v: -1i8 },
        QuadVertex { x: -1i8, y: 1i8, u: -1i8, v: -1i8 },
        QuadVertex { x: -1i8, y: -1i8, u: -1i8, v: 1i8 },
    ]
}

/// The two triangles of the quad, as indices into the corners.
pub open spec fn quad_triangles() -> Seq<u32> {
    seq![0u32, 1u32, 2u32, 0u32, 2u32, 3u32]
}

impl FsQuad {
    /// The corners of the quad. All of them face the viewer, so the normal of
    /// each is the negative depth axis.
    pub fn vertices(&self) -> (corners: Vec<QuadVertex>)
        ensures
            corners@ == quad_corners(),
            forall|i: int| 0 <= i < corners@.len() ==> #[trigger] corners@[i].v == -corners@[i].y,
    {
        let corners = vec![
            QuadVertex { x: 1, y: -1, u: 1, v: 1 },
            QuadVertex { x: 1, y: 1, u: 1, v: -1 },
            QuadVertex { x: -1, y: 1, u: -1, v: -1 },
            QuadVertex { x: -1, y: -1, u: -1, v: 1 },
        ];
        assert(corners@ =~= quad_corners());
        corners
    }

    /// The triangle list of the quad: two triangles that share the diagonal
    /// from the first corner to the third.
    pub fn indices(&self) -> (triangles: Vec<u32>)
        ensures
            triangles@ == quad_triangles(),
            forall|i: int| 0 <= i < triangles@.len() ==> #[trigger] triangles@[i] < 4,
    {
        let triangles = vec![0u32, 1u32, 2u32, 0u32, 2u32, 3u32];
        assert(triangles@ =~= quad_triangles());
        triangles
    }
}

/// Shows the frame buffer of a clip on a quad.
#[derive(Clone, Copy, Debug, PartialEq, Eq, Structural)]
pub struct ClipRender {
    pub image: ImageId,
}

/// Makes the renderer for a clip that was added, where one was: the
/// renderer shows the frame buffer of that clip.
pub fn setup_clip_renderer(added: Option<&Clip>) -> (renderer: Option<ClipRender>)
    ensures
        renderer == match added {
            Some(clip) => Some(ClipRender { image: clip@.render_target }),
            None => None,
        },
{
    match added {
        Some(clip) => Some(ClipRender { image: clip.target() }),
        None => None,
    }
}

} // verus!
