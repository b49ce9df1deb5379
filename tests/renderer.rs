use sprite_engine::color::Color;
use sprite_engine::draw_command::{Command, DrawCommand, Sprite, Transform};
use sprite_engine::linalg::{Vec2, Vec2i, Vec3};
use sprite_engine::renderer::{Frame, GpuOp, Renderer};
use sprite_engine::texture::{TexCoord, Texture, TextureFlip};

fn tex(obj: u32, w: u32, h: u32) -> Texture {
    Texture { obj, w, h }
}

fn sprite(texture: Texture, flip: TextureFlip) -> Sprite {
    Sprite {
        texture,
        texture_flip: flip,
        uvs: (Vec2i { x: 0, y: 0 }, Vec2i { x: 32, y: 32 }),
        pivot: Vec2 { x: 16, y: 16 },
        size: Vec2 { x: 32, y: 32 },
    }
}

fn as_f32(uvs: &[TexCoord]) -> Vec<f32> {
    uvs.iter().map(|c| c.num as f32 / c.den as f32).collect()
}

fn frame_of(renderer: &mut Renderer) -> Frame {
    renderer.render_queued_draws().expect("queued commands give a frame")
}

fn count_binds(ops: &[GpuOp]) -> usize {
    ops.iter().filter(|op| matches!(op, GpuOp::BindTexture(_))).count()
}

fn count_uses(ops: &[GpuOp]) -> usize {
    ops.iter().filter(|op| matches!(op, GpuOp::UseProgram(_))).count()
}

fn draws(ops: &[GpuOp]) -> Vec<sprite_engine::renderer::DrawCall> {
    ops.iter()
        .filter_map(|op| match op {
            GpuOp::Draw(call) => Some(*call),
            _ => None,
        })
        .collect()
}

#[test]
fn end_to_end_single_sprite() {
    let mut r = Renderer::new(7);
    let t = Transform { pos: Vec2 { x: 50, y: 50 }, rot: 0, layer: 0 };
    r.queue_draw_sprite(&t, &sprite(tex(3, 64, 64), TextureFlip::no()), Color::white());
    let f = frame_of(&mut r);
    assert_eq!(as_f32(&f.uvs), vec![0.0, 0.0, 0.5, 0.0, 0.5, 0.5, 0.0, 0.5]);
    let calls = draws(&f.ops);
    assert_eq!(calls.len(), 1);
    assert_eq!(calls[0].count, 6);
    assert_eq!(calls[0].start, 0);
    assert_eq!(calls[0].translation, Vec3 { x: 50, y: 50, z_tenths: 1 });
    assert_eq!(calls[0].translation.z_tenths as f32 / 10.0, 0.1);
    assert_eq!(calls[0].pivot, Vec2 { x: 16, y: 16 });
    assert_eq!(calls[0].texture_object, 3);
    assert_eq!(f.positions, vec![0, 0, 0, 32, 0, 0, 32, 32, 0, 0, 32, 0]);
    assert_eq!(f.colors, vec![255u8; 16]);
    assert_eq!(f.indices, vec![0, 1, 2, 2, 3, 0]);
    assert_eq!(
        f.ops,
        vec![
            GpuOp::UseProgram(7),
            GpuOp::Upload,
            GpuOp::BindTexture(3),
            GpuOp::Draw(calls[0]),
        ]
    );
    assert_eq!(r.queued_len(), 0);
    assert_eq!(r.current_texture_object(), 3);
    assert_eq!(r.current_program(), 7);
}

fn uvs_with(flip: TextureFlip) -> Vec<f32> {
    let mut r = Renderer::new(1);
    r.queue_draw_sprite(&Transform::from_pos(0, 0), &sprite(tex(3, 64, 64), flip), Color::white());
    as_f32(&frame_of(&mut r).uvs)
}

#[test]
fn flip_x_swaps_u_only() {
    assert_eq!(uvs_with(TextureFlip::flip_x()), vec![0.5, 0.0, 0.0, 0.0, 0.0, 0.5, 0.5, 0.5]);
}

#[test]
fn flip_y_swaps_v_only() {
    assert_eq!(uvs_with(TextureFlip::flip_y()), vec![0.0, 0.5, 0.5, 0.5, 0.5, 0.0, 0.0, 0.0]);
}

#[test]
fn flip_both_axes() {
    let both = TextureFlip::flip_x().union(TextureFlip::flip_y());
    assert!(both.contains(TextureFlip::flip_x()));
    assert!(both.contains(TextureFlip::flip_y()));
    assert!(!TextureFlip::flip_x().contains(TextureFlip::flip_y()));
    assert_eq!(uvs_with(both), vec![0.5, 0.5, 0.0, 0.5, 0.0, 0.0, 0.5, 0.0]);
    let x = uvs_with(TextureFlip::flip_x());
    let none = uvs_with(TextureFlip::no());
    for k in 0..4 {
        assert_eq!(x[2 * k + 1], none[2 * k + 1]);
    }
}

#[test]
fn zero_sized_texture_scales_by_one() {
    let mut r = Renderer::new(1);
    r.queue_draw_sprite(&Transform::from_pos(0, 0), &sprite(tex(3, 0, 0), TextureFlip::no()), Color::white());
    let f = frame_of(&mut r);
    assert_eq!(f.uvs[2], TexCoord { num: 32, den: 1 });
    assert_eq!(as_f32(&f.uvs), vec![0.0, 0.0, 32.0, 0.0, 32.0, 32.0, 0.0, 32.0]);
}

#[test]
fn depth_increases_with_layer() {
    let mut r = Renderer::new(1);
    let s = sprite(tex(3, 64, 64), TextureFlip::no());
    r.queue_draw_sprite(&Transform { pos: Vec2 { x: 5, y: 5 }, rot: 0, layer: 3 }, &s, Color::white());
    r.queue_draw_sprite(&Transform { pos: Vec2 { x: 5, y: 5 }, rot: 0, layer: 1 }, &s, Color::white());
    let calls = draws(&frame_of(&mut r).ops);
    assert_eq!(calls[0].translation.z_tenths, 4);
    assert_eq!(calls[1].translation.z_tenths, 2);
    assert!(calls[1].translation.z_tenths < calls[0].translation.z_tenths);
}

#[test]
fn quads_get_their_own_vertices() {
    let mut r = Renderer::new(1);
    let s = sprite(tex(3, 64, 64), TextureFlip::no());
    for _ in 0..3 {
        r.queue_draw_sprite(&Transform::from_pos(1, 2), &s, Color::white());
    }
    let f = frame_of(&mut r);
    assert_eq!(f.indices, vec![0, 1, 2, 2, 3, 0, 4, 5, 6, 6, 7, 4, 8, 9, 10, 10, 11, 8]);
    assert_eq!(f.positions.len(), 36);
    assert_eq!(f.colors.len(), 48);
    assert_eq!(f.uvs.len(), 24);
    let starts: Vec<usize> = draws(&f.ops).iter().map(|c| c.start).collect();
    assert_eq!(starts, vec![0, 6, 12]);
}

#[test]
fn shared_texture_binds_once() {
    let mut r = Renderer::new(9);
    let s = sprite(tex(3, 64, 64), TextureFlip::no());
    for i in 0..5 {
        r.queue_draw_sprite(&Transform::from_pos(i, i), &s, Color::white());
    }
    let f = frame_of(&mut r);
    assert_eq!(count_binds(&f.ops), 1);
    assert_eq!(count_uses(&f.ops), 1);
    assert_eq!(draws(&f.ops).len(), 5);
}

#[test]
fn alternating_textures_bind_each_time() {
    let mut r = Renderer::new(9);
    let a = sprite(tex(3, 64, 64), TextureFlip::no());
    let b = sprite(tex(4, 64, 64), TextureFlip::no());
    for i in 0..4 {
        let s = if i % 2 == 0 { &a } else { &b };
        r.queue_draw_sprite(&Transform::from_pos(0, 0), s, Color::white());
    }
    let f = frame_of(&mut r);
    assert_eq!(count_binds(&f.ops), 4);
    assert_eq!(r.current_texture_object(), 4);
}

#[test]
fn bound_texture_persists_across_frames() {
    let mut r = Renderer::new(9);
    let s = sprite(tex(3, 64, 64), TextureFlip::no());
    r.queue_draw_sprite(&Transform::from_pos(0, 0), &s, Color::white());
    assert_eq!(count_binds(&frame_of(&mut r).ops), 1);
    r.queue_draw_sprite(&Transform::from_pos(0, 0), &s, Color::white());
    assert_eq!(count_binds(&frame_of(&mut r).ops), 0);
}

fn command(program: u32, texture: Texture) -> DrawCommand {
    DrawCommand {
        program,
        texture,
        color: Color::black(),
        pos: Vec2 { x: 0, y: 0 },
        rot: 90,
        layer: 0,
        cmd: Command::DrawSprite {
            texture_flip: TextureFlip::no(),
            uvs: (Vec2i { x: 0, y: 0 }, Vec2i { x: 16, y: 16 }),
            pivot: Vec2 { x: 8, y: 8 },
            size: Vec2 { x: 16, y: 16 },
        },
    }
}

#[test]
fn program_switches_only_on_change() {
    let mut r = Renderer::new(9);
    let t = tex(3, 64, 64);
    r.queue(command(0, t));
    r.queue(command(9, t));
    r.queue(command(5, t));
    r.queue(command(5, t));
    r.queue(command(0, t));
    let f = frame_of(&mut r);
    let uses: Vec<&GpuOp> = f.ops.iter().filter(|op| matches!(op, GpuOp::UseProgram(_))).collect();
    assert_eq!(uses, vec![&GpuOp::UseProgram(9), &GpuOp::UseProgram(5)]);
    assert_eq!(r.current_program(), 5);
    assert_eq!(f.colors[0..4].to_vec(), vec![0, 0, 0, 255]);
    assert_eq!(draws(&f.ops)[0].rot, 90);
}

#[test]
fn empty_queue_does_nothing() {
    let mut r = Renderer::new(9);
    assert!(r.render_queued_draws().is_none());
    assert_eq!(r.current_program(), 9);
    assert_eq!(r.current_texture_object(), 0);
    assert_eq!(r.queued_len(), 0);
}

#[test]
fn queue_keeps_submission_order() {
    let mut r = Renderer::new(9);
    let s = sprite(tex(3, 64, 64), TextureFlip::no());
    for i in 0..3 {
        r.queue_draw_sprite(&Transform::from_pos(10 * i, 0), &s, Color::white());
    }
    assert_eq!(r.queued_len(), 3);
    let xs: Vec<i32> = draws(&frame_of(&mut r).ops).iter().map(|c| c.translation.x).collect();
    assert_eq!(xs, vec![0, 10, 20]);
}
