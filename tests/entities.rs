use sprite_engine::asset_system::AssetSystem;
use sprite_engine::color::Color;
use sprite_engine::draw_command::{Sprite, Transform};
use sprite_engine::entities::{EntityContainer, EntityId};
use sprite_engine::linalg::{Vec2, Vec2i};
use sprite_engine::renderer::{GpuOp, Renderer};
use sprite_engine::sprites::Sprites;
use sprite_engine::texture::{Texture, TextureFlip};

fn atlas() -> Texture {
    Texture { obj: 2, w: 128, h: 32 }
}

#[test]
fn create_get_and_len() {
    let mut c: EntityContainer<u32> = EntityContainer::new();
    assert_eq!(c.len(), 0);
    let a = c.create_entity(Transform::from_pos(1, 2), Sprite::default(), 10);
    let b = c.create_entity(Transform::from_pos(3, 4), Sprite::default(), 20);
    assert_eq!(a, EntityId { index: 0 });
    assert_eq!(b, EntityId { index: 1 });
    assert_eq!(c.len(), 2);
    let e = c.get(b).unwrap();
    assert_eq!(e.data, 20);
    assert_eq!(e.entity.transform, Transform::from_pos(3, 4));
    assert!(e.entity.is_visible && e.entity.is_active);
}

#[test]
fn destroyed_slot_is_reused() {
    let mut c: EntityContainer<u32> = EntityContainer::new();
    let a = c.create_entity(Transform::from_pos(1, 2), Sprite::default(), 10);
    let _b = c.create_entity(Transform::from_pos(3, 4), Sprite::default(), 20);
    c.destroy_entity(a);
    assert_eq!(c.len(), 1);
    assert!(c.get(a).is_none());
    let d = c.create_entity(Transform::from_pos(5, 6), Sprite::default(), 30);
    assert_eq!(d, a);
    assert_eq!(c.get(d).unwrap().data, 30);
    assert_eq!(c.len(), 2);
}

#[test]
fn get_mut_changes_the_entity() {
    let mut c: EntityContainer<u32> = EntityContainer::new();
    let a = c.create_entity(Transform::from_pos(1, 2), Sprite::default(), 10);
    c.get_mut(a).unwrap().entity.transform.pos.x += 100;
    assert_eq!(c.get(a).unwrap().entity.transform.pos, Vec2 { x: 101, y: 2 });
    c.destroy_entity(a);
    assert!(c.get_mut(a).is_none());
}

#[test]
fn render_queues_visible_entities_in_white() {
    let sprites = Sprites::from_atlas(atlas());
    let mut c: EntityContainer<()> = EntityContainer::new();
    let a = c.create_entity(Transform::from_pos(1, 1), sprites.target_sprite, ());
    let hidden = c.create_entity(Transform::from_pos(2, 2), sprites.short_note_sprite, ());
    let _ = c.create_entity(Transform::from_pos(3, 3), sprites.rhythm_line_sprite, ());
    c.get_mut(hidden).unwrap().entity.is_visible = false;
    c.destroy_entity(a);
    let mut r = Renderer::new(1);
    c.render(&mut r);
    assert_eq!(r.queued_len(), 1);
    let f = r.render_queued_draws().unwrap();
    assert_eq!(f.colors, vec![255u8; 16]);
    let call = f.ops.iter().find_map(|op| match op {
        GpuOp::Draw(call) => Some(*call),
        _ => None,
    });
    assert_eq!(call.unwrap().translation.x, 3);
    assert_eq!(Color::white(), Color { r: 255, g: 255, b: 255, a: 255 });
}

#[test]
fn atlas_sprites_layout() {
    let s = Sprites::from_atlas(atlas());
    assert_eq!(s.target_sprite.uvs, (Vec2i { x: 0, y: 0 }, Vec2i { x: 32, y: 32 }));
    assert_eq!(s.target_sprite.pivot, Vec2 { x: 16, y: 16 });
    assert_eq!(s.target_sprite.size, Vec2 { x: 32, y: 32 });
    assert_eq!(s.short_note_sprite.uvs, (Vec2i { x: 32, y: 0 }, Vec2i { x: 48, y: 16 }));
    assert_eq!(s.long_note_sprites.2.uvs, (Vec2i { x: 80, y: 0 }, Vec2i { x: 96, y: 16 }));
    assert_eq!(s.rhythm_line_sprite.pivot, Vec2 { x: 8, y: 8 });
    assert_eq!(s.rhythm_line_sprite.texture_flip, TextureFlip::no());
    let odd = Sprite::from_atlas(atlas(), 0, 0, 5, 3);
    assert_eq!(odd.pivot, Vec2 { x: 2, y: 1 });
}

#[test]
fn texture_cache_keeps_first_load() {
    let mut cache = AssetSystem::new();
    let path = String::from("assets/gfx/gfx.png");
    assert!(cache.get_texture(&path).is_none());
    let t = Texture { obj: 5, w: 64, h: 64 };
    assert_eq!(cache.insert_texture(path.clone(), t), t);
    assert_eq!(cache.get_texture(&path), Some(t));
    let other = Texture { obj: 6, w: 8, h: 8 };
    assert_eq!(cache.insert_texture(path.clone(), other), t);
    assert!(cache.get_texture(&String::from("assets/gfx/other.png")).is_none());
    assert_eq!(cache.insert_texture(String::from("b.png"), other), other);
    assert_eq!(cache.get_texture(&String::from("b.png")), Some(other));
}

#[test]
fn game_state_draws_target_at_its_spot() {
    let state = sprite_engine::game::State::new(atlas());
    assert_eq!(state.sprites.target_sprite.size, Vec2 { x: 32, y: 32 });
    let mut r = Renderer::new(1);
    state.render(&mut r);
    let f = r.render_queued_draws().unwrap();
    assert_eq!(
        f.ops.last(),
        Some(&GpuOp::Draw(sprite_engine::renderer::DrawCall {
            start: 0,
            count: 6,
            translation: sprite_engine::linalg::Vec3 { x: 100, y: 100, z_tenths: 1 },
            pivot: Vec2 { x: 16, y: 16 },
            rot: 0,
            texture_object: 2,
        }))
    );
    assert_eq!(f.uvs[2].num as f32 / f.uvs[2].den as f32, 0.25);
}
