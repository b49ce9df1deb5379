use vstd::prelude::*;

use crate::color::Color;
use crate::linalg::{Vec2, Vec2i};
use crate::texture::{Texture, TextureFlip};

verus! {

/// A shader program handle; 0 stands for "keep the current program".
pub type Program = u32;

/// What a draw command draws.
#[derive(Clone, Copy, Debug)]
pub enum Command {
    /// A textured quad cut out of an atlas.
    DrawSprite {
        texture_flip: TextureFlip,
        /// The region's two pixel-space corners.
        uvs: (Vec2i, Vec2i),
        /// The point, relative to the quad's origin, that the sprite rotates
        /// around and that is placed at the command's position.
        pivot: Vec2,
        size: Vec2,
    },
}

/// One request to draw something during a frame.
#[derive(Clone, Copy, Debug)]
pub struct DrawCommand {
    pub program: Program,
    pub texture: Texture,
    pub color: Color,
    pub pos: Vec2,
    /// Rotation in degrees.
    pub rot: i32,
    pub layer: i32,
    pub cmd: Command,
}

/// Position, rotation (degrees) and depth layer of something in the world.
#[derive(Clone, Copy, Debug, PartialEq, Eq, Structural, Default)]
pub struct Transform {
    pub pos: Vec2,
    pub rot: i32,
    pub layer: i32,
}

impl Transform {
    /// A transform at `(x, y)`, unrotated, on layer 0.
    pub fn from_pos(x: i32, y: i32) -> (t: Transform)
        ensures
            t == (Transform { pos: Vec2 { x, y }, rot: 0, layer: 0 }),
    {
        Transform { pos: Vec2 { x, y }, rot: 0, layer: 0 }
    }
}

/// A region of a texture atlas, drawn as a quad of `size` world units.
#[derive(Clone, Copy, Debug, Default)]
pub struct Sprite {
    pub texture: Texture,
    pub texture_flip: TextureFlip,
    pub uvs: (Vec2i, Vec2i),
    pub pivot: Vec2,
    pub size: Vec2,
}

/// The sprite cut from the atlas region of `w` by `h` pixels whose corner is
/// at `(x, y)`, one world unit per pixel, pivoting about its center (rounded
/// toward zero), unflipped.
pub open spec fn atlas_sprite(texture: Texture, x: i32, y: i32, w: i32, h: i32) -> Sprite {
    Sprite {
        texture,
        texture_flip: TextureFlip { x: false, y: false },
        uvs: (Vec2i { x, y }, Vec2i { x: (x + w) as i32, y: (y + h) as i32 }),
        pivot: Vec2 { x: (w / 2) as i32, y: (h / 2) as i32 },
        size: Vec2 { x: w, y: h },
    }
}

impl Sprite {
    /// Cuts a sprite out of the atlas region of `w` by `h` pixels whose corner
    /// is at `(x, y)`.
    pub fn from_atlas(texture: Texture, x: i32, y: i32, w: i32, h: i32) -> (s: Sprite)
        requires
            0 <= w,
            0 <= h,
            x + w <= i32::MAX,
            y + h <= i32::MAX,
        ensures
            s == atlas_sprite(texture, x, y, w, h),
    {
        Sprite {
            texture,
            texture_flip: TextureFlip::no(),
            uvs: (Vec2i { x, y }, Vec2i { x: x + w, y: y + h }),
            pivot: Vec2 { x: w / 2, y: h / 2 },
            size: Vec2 { x: w, y: h },
        }
    }
}

/// The command that draws `sprite` with `transform` and `color` using the
/// current shader program.
pub open spec fn sprite_command(transform: Transform, sprite: Sprite, color: Color) -> DrawCommand {
    DrawCommand {
        program: 0,
        texture: sprite.texture,
        color,
        pos: transform.pos,
        rot: transform.rot,
        layer: transform.layer,
        cmd: Command::DrawSprite {
            texture_flip: sprite.texture_flip,
            uvs: sprite.uvs,
            pivot: sprite.pivot,
            size: sprite.size,
        },
    }
}

impl DrawCommand {
    /// Builds the command for drawing `sprite` at `transform`.
    pub fn sprite(transform: &Transform, sprite: &Sprite, color: Color) -> (c: DrawCommand)
        ensures
            c == sprite_command(*transform, *sprite, color),
    {
        DrawCommand {
            program: 0,
            texture: sprite.texture,
            color,
            pos: transform.pos,
            rot: transform.rot,
            layer: transform.layer,
            cmd: Command::DrawSprite {
                texture_flip: sprite.texture_flip,
                uvs: sprite.uvs,
                pivot: sprite.pivot,
                size: sprite.size,
            },
        }
    }
}

} // verus!
