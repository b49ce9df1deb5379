use vstd::prelude::*;

use crate::linalg::Vec2i;

verus! {

/// A handle to a GPU texture object together with its size in pixels.
/// Copying a texture copies the handle, not the pixels.
#[derive(Clone, Copy, Debug, PartialEq, Eq, Structural, Default)]
pub struct Texture {
    pub obj: u32,
    pub w: u32,
    pub h: u32,
}

/// Which texture axes are mirrored when a sprite is drawn.
#[derive(Clone, Copy, Debug, PartialEq, Eq, Structural, Default)]
pub struct TextureFlip {
    pub x: bool,
    pub y: bool,
}

impl TextureFlip {
    /// No mirroring.
    pub fn no() -> (r: TextureFlip)
        ensures
            !r.x && !r.y,
    {
        TextureFlip { x: false, y: false }
    }

    /// Mirror along the U axis.
    pub fn flip_x() -> (r: TextureFlip)
        ensures
            r.x && !r.y,
    {
        TextureFlip { x: true, y: false }
    }

    /// Mirror along the V axis.
    pub fn flip_y() -> (r: TextureFlip)
        ensures
            !r.x && r.y,
    {
        TextureFlip { x: false, y: true }
    }

    /// The flips of both `self` and `other`.
    pub fn union(self, other: TextureFlip) -> (r: TextureFlip)
        ensures
            r.x == (self.x || other.x),
            r.y == (self.y || other.y),
    {
        TextureFlip { x: self.x || other.x, y: self.y || other.y }
    }

    /// Whether every axis flipped by `other` is flipped by `self`.
    pub fn contains(self, other: TextureFlip) -> (r: bool)
        ensures
            r == ((other.x ==> self.x) && (other.y ==> self.y)),
    {
        (!other.x || self.x) && (!other.y || self.y)
    }
}

/// A normalized texture coordinate, held exactly as the fraction `num / den`
/// of a pixel offset over a texture dimension.
#[derive(Clone, Copy, Debug, PartialEq, Eq, Structural)]
pub struct TexCoord {
    pub num: i32,
    pub den: u32,
}

/// The divisor used to normalize pixel offsets along an axis of `dim` pixels:
/// the dimension itself, or 1 for a degenerate texture of size zero.
pub open spec fn uv_scale(dim: u32) -> u32 {
    if dim != 0 { dim } else { 1 }
}

pub open spec fn tex_coord(px: i32, dim: u32) -> TexCoord {
    TexCoord { num: px, den: uv_scale(dim) }
}

/// U values of the four quad corners, bottom-left, bottom-right, top-right,
/// top-left, before any flip.
pub open spec fn base_us(tex: Texture, corners: (Vec2i, Vec2i)) -> Seq<TexCoord> {
    seq![
        tex_coord(corners.0.x, tex.w),
        tex_coord(corners.1.x, tex.w),
        tex_coord(corners.1.x, tex.w),
        tex_coord(corners.0.x, tex.w),
    ]
}

/// V values of the four quad corners, in the same order, before any flip.
pub open spec fn base_vs(tex: Texture, corners: (Vec2i, Vec2i)) -> Seq<TexCoord> {
    seq![
        tex_coord(corners.0.y, tex.h),
        tex_coord(corners.0.y, tex.h),
        tex_coord(corners.1.y, tex.h),
        tex_coord(corners.1.y, tex.h),
    ]
}

/// Mirroring along U swaps the corners pairwise: 0 with 1 and 2 with 3.
pub open spec fn swap_u(s: Seq<TexCoord>) -> Seq<TexCoord> {
    seq![s[1], s[0], s[3], s[2]]
}

/// Mirroring along V swaps the corners pairwise: 0 with 2 and 1 with 3.
pub open spec fn swap_v(s: Seq<TexCoord>) -> Seq<TexCoord> {
    seq![s[2], s[3], s[0], s[1]]
}

/// The U and V values of the four corners after applying `flip`.
pub open spec fn apply_flip(us: Seq<TexCoord>, vs: Seq<TexCoord>, flip: TextureFlip) -> (
    Seq<TexCoord>,
    Seq<TexCoord>,
) {
    (if flip.x { swap_u(us) } else { us }, if flip.y { swap_v(vs) } else { vs })
}

/// Interleaves four U values and four V values into `u0, v0, u1, v1, ...`.
pub open spec fn interleave(us: Seq<TexCoord>, vs: Seq<TexCoord>) -> Seq<TexCoord> {
    seq![us[0], vs[0], us[1], vs[1], us[2], vs[2], us[3], vs[3]]
}

/// The eight texture coordinates emitted for a sprite quad, in vertex order.
pub open spec fn sprite_uvs(tex: Texture, flip: TextureFlip, corners: (Vec2i, Vec2i)) -> Seq<
    TexCoord,
> {
    let f = apply_flip(base_us(tex, corners), base_vs(tex, corners), flip);
    interleave(f.0, f.1)
}

/// Flipping twice by the same flags gives back the unflipped corner assignment,
/// for each of the four flag combinations.
pub proof fn lemma_flip_twice_is_identity(
    us: Seq<TexCoord>,
    vs: Seq<TexCoord>,
    flip: TextureFlip,
)
    requires
        us.len() == 4,
        vs.len() == 4,
    ensures
        ({
            let once = apply_flip(us, vs, flip);
            apply_flip(once.0, once.1, flip) == (us, vs)
        }),
{
    assert(swap_u(swap_u(us)) =~= us);
    assert(swap_v(swap_v(vs)) =~= vs);
}

/// The two axes flip independently: the U flag never changes the V values,
/// and the V flag never changes the U values.
pub proof fn lemma_flip_axes_independent(
    us: Seq<TexCoord>,
    vs: Seq<TexCoord>,
    flip: TextureFlip,
)
    ensures
        apply_flip(us, vs, flip).1 == apply_flip(us, vs, TextureFlip { x: !flip.x, ..flip }).1,
        apply_flip(us, vs, flip).0 == apply_flip(us, vs, TextureFlip { y: !flip.y, ..flip }).0,
        apply_flip(us, vs, TextureFlip { x: true, y: false }).1 == vs,
        apply_flip(us, vs, TextureFlip { x: false, y: true }).0 == us,
{
}

/// Normalizes the two pixel-space corners of an atlas region against the
/// texture's size and applies `flip`, giving the eight coordinates
/// `u0, v0, u1, v1, u2, v2, u3, v3` of the quad's corners.
pub fn sprite_tex_coords(tex: Texture, flip: TextureFlip, corners: (Vec2i, Vec2i)) -> (r: Vec<
    TexCoord,
>)
    ensures
        r@ == sprite_uvs(tex, flip, corners),
{
    let u_scale: u32 = if tex.w != 0 { tex.w } else { 1 };
    let v_scale: u32 = if tex.h != 0 { tex.h } else { 1 };
    let u0 = TexCoord { num: corners.0.x, den: u_scale };
    let u1 = TexCoord { num: corners.1.x, den: u_scale };
    let v0 = TexCoord { num: corners.0.y, den: v_scale };
    let v1 = TexCoord { num: corners.1.y, den: v_scale };
    let us: Vec<TexCoord> = if flip.x {
        vec![u1, u0, u0, u1]
    } else {
        vec![u0, u1, u1, u0]
    };
    let vs: Vec<TexCoord> = if flip.y {
        vec![v1, v1, v0, v0]
    } else {
        vec![v0, v0, v1, v1]
    };
    let r: Vec<TexCoord> = vec![us[0], vs[0], us[1], vs[1], us[2], vs[2], us[3], vs[3]];
    proof {
        let f = apply_flip(base_us(tex, corners), base_vs(tex, corners), flip);
        assert(us@ =~= f.0);
        assert(vs@ =~= f.1);
        assert(r@ =~= sprite_uvs(tex, flip, corners));
    }
    r
}

} // verus!
