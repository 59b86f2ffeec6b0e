//! Sprite sheet metadata shared with the render collaborator.

use vstd::prelude::*;

verus! {

/// A rectangle of a sprite sheet, in pixels.
#[derive(Copy, Clone, PartialEq, Eq, Structural, Debug)]
pub struct SpriteRegion {
    pub x: u32,
    pub y: u32,
    pub w: u32,
    pub h: u32,
}

/// The pixel dimensions of a sprite sheet.
#[derive(Debug)]
pub struct SpriteSheet {
    w: u32,
    h: u32,
}

impl SpriteSheet {
    /// Width of the sheet in pixels.
    pub closed spec fn width(&self) -> u32 {
        self.w
    }

    /// Height of the sheet in pixels.
    pub closed spec fn height(&self) -> u32 {
        self.h
    }

    /// A sheet of `w` by `h` pixels.
    pub fn new(w: u32, h: u32) -> (sheet: SpriteSheet)
        ensures
            sheet.width() == w,
            sheet.height() == h,
    {
        SpriteSheet { w, h }
    }
}

/// The corners of a quad in the order its two triangles visit them: top
/// left, top right, bottom right, then bottom right, bottom left, top left.
pub open spec fn quad_corner(step: int) -> int {
    if step == 0 {
        0
    } else if step == 1 {
        1
    } else if step == 2 {
        2
    } else if step == 3 {
        2
    } else if step == 4 {
        3
    } else {
        0
    }
}

/// The entry at `place` of the index buffer of a batch of sprites: each
/// sprite is a quad of four vertices and takes six entries.
pub open spec fn quad_index(place: int) -> int {
    4 * (place / 6) + quad_corner(place % 6)
}

/// The index buffer for a batch of `sprites` sprites.
pub fn quad_indices(sprites: usize) -> (indices: Vec<u32>)
    requires
        4 * sprites <= u32::MAX,
    ensures
        indices.len() == 6 * sprites,
        forall|place: int| 0 <= place < indices.len() ==> indices[place] == quad_index(place),
{
    let mut indices: Vec<u32> = Vec::new();
    let mut sprite: usize = 0;
    while sprite < sprites
        invariant
            sprite <= sprites,
            4 * sprites <= u32::MAX,
            indices.len() == 6 * sprite,
            forall|place: int| 0 <= place < indices.len() ==> indices[place] == quad_index(place),
        decreases sprites - sprite,
    {
        let vertex_count: u32 = (4 * sprite) as u32;
        let ghost filled = indices@;
        indices.push(vertex_count);
        indices.push(vertex_count + 1);
        indices.push(vertex_count + 2);
        indices.push(vertex_count + 2);
        indices.push(vertex_count + 3);
        indices.push(vertex_count);
        proof {
            assert forall|place: int| 0 <= place < indices.len() implies indices[place]
                == quad_index(place) by {
                if place >= filled.len() {
                    let step = place - 6 * sprite;
                    assert(place / 6 == sprite && place % 6 == step) by (nonlinear_arith)
                        requires
                            place == 6 * sprite + step,
                            0 <= step < 6,
                    ;
                }
            }
        }
        sprite = sprite + 1;
    }
    indices
}

} // verus!
