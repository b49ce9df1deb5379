use vstd::prelude::*;

use crate::color::Color;
use crate::draw_command::{sprite_command, Transform};
use crate::linalg::Vec2;
use crate::renderer::{Renderer, MAX_QUEUED};
use crate::sprites::Sprites;
use crate::texture::Texture;

verus! {

/// The game's own state: its graphics atlas and the sprites cut from it.
#[derive(Clone, Copy, Debug)]
pub struct State {
    pub texture: Texture,
    pub sprites: Sprites,
}

impl State {
    /// The state for the graphics atlas `texture`.
    pub fn new(texture: Texture) -> (s: State)
        ensures
            s.texture == texture,
            s.sprites == Sprites::spec_from_atlas(texture),
    {
        State { texture, sprites: Sprites::from_atlas(texture) }
    }

    /// Queues the frame's draws: the target sprite at `(100, 100)` in white.
    pub fn render(&self, renderer: &mut Renderer)
        requires
            old(renderer).wf(),
            old(renderer).queued().len() < MAX_QUEUED,
        ensures
            final(renderer).wf(),
            final(renderer).queued() == old(renderer).queued().push(
                sprite_command(
                    Transform { pos: Vec2 { x: 100, y: 100 }, rot: 0, layer: 0 },
                    self.sprites.target_sprite,
                    Color { r: 255, g: 255, b: 255, a: 255 },
                ),
            ),
            final(renderer).program() == old(renderer).program(),
            final(renderer).texture() == old(renderer).texture(),
    {
        let white = Color::white();
        renderer.queue_draw_sprite(&Transform::from_pos(100, 100), &self.sprites.target_sprite, white);
    }
}

} // verus!
