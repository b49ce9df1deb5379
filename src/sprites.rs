use vstd::prelude::*;

use crate::draw_command::{atlas_sprite, Sprite};
use crate::texture::Texture;

verus! {

/// The sprites of the game's graphics atlas.
#[derive(Clone, Copy, Debug)]
pub struct Sprites {
    pub target_sprite: Sprite,
    pub short_note_sprite: Sprite,
    pub long_note_sprites: (Sprite, Sprite, Sprite),
    pub rhythm_line_sprite: Sprite,
}

impl Sprites {
    /// The game's sprites in the atlas `atlas`.
    pub open spec fn spec_from_atlas(atlas: Texture) -> Sprites {
        Sprites {
            target_sprite: atlas_sprite(atlas, 0, 0, 32, 32),
            short_note_sprite: atlas_sprite(atlas, 32, 0, 16, 16),
            long_note_sprites: (
                atlas_sprite(atlas, 48, 0, 16, 16),
                atlas_sprite(atlas, 64, 0, 16, 16),
                atlas_sprite(atlas, 80, 0, 16, 16),
            ),
            rhythm_line_sprite: atlas_sprite(atlas, 96, 0, 16, 16),
        }
    }

    /// Cuts the game's sprites out of `atlas`: a 32-pixel target at the
    /// origin, followed along the top row by 16-pixel tiles for the short
    /// note, the three parts of a long note and the rhythm line.
    pub fn from_atlas(atlas: Texture) -> (r: Sprites)
        ensures
            r == Sprites::spec_from_atlas(atlas),
    {
        Sprites {
            target_sprite: Sprite::from_atlas(atlas, 0, 0, 32, 32),
            short_note_sprite: Sprite::from_atlas(atlas, 32, 0, 16, 16),
            long_note_sprites: (
                Sprite::from_atlas(atlas, 48, 0, 16, 16),
                Sprite::from_atlas(atlas, 64, 0, 16, 16),
                Sprite::from_atlas(atlas, 80, 0, 16, 16),
            ),
            rhythm_line_sprite: Sprite::from_atlas(atlas, 96, 0, 16, 16),
        }
    }
}

} // verus!
