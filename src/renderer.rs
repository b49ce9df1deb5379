use vstd::prelude::*;

use crate::color::Color;
use crate::draw_command::{sprite_command, Command, DrawCommand, Program, Sprite, Transform};
use crate::linalg::{Vec2, Vec3};
use crate::texture::{sprite_tex_coords, sprite_uvs, TexCoord};

verus! {

/// The most sprites one frame may hold. It keeps every vertex index within
/// `u32` and every geometry array, in bytes, within a 32-bit address space.
pub const MAX_QUEUED: usize = 0x400_0000;

/// One draw of a quad already uploaded in the frame's geometry.
#[derive(Clone, Copy, Debug, PartialEq, Eq, Structural)]
pub struct DrawCall {
    /// First entry of the index array that the draw reads.
    pub start: usize,
    /// Number of indices drawn: 6, two triangles.
    pub count: usize,
    pub translation: Vec3,
    pub pivot: Vec2,
    /// Rotation in degrees.
    pub rot: i32,
    pub texture_object: u32,
}

/// A GPU operation planned by the renderer, in the order it must be issued.
#[derive(Clone, Copy, Debug, PartialEq, Eq, Structural)]
pub enum GpuOp {
    /// Make the program current and upload its sampler, view and projection uniforms.
    UseProgram(Program),
    /// Bind the texture object to the single active texture unit.
    BindTexture(u32),
    /// Replace the four GPU buffers with the frame's geometry arrays.
    Upload,
    /// Set the model matrix from pivot, rotation and translation, then draw.
    Draw(DrawCall),
}

/// Everything the GPU needs for one frame: the assembled geometry and the
/// operations to issue.
pub struct Frame {
    /// Three coordinates per vertex.
    pub positions: Vec<i32>,
    /// Four channels per vertex.
    pub colors: Vec<u8>,
    /// A `u, v` pair per vertex.
    pub uvs: Vec<TexCoord>,
    /// Three entries per triangle.
    pub indices: Vec<u32>,
    pub ops: Vec<GpuOp>,
}

pub open spec fn sprite_size(c: DrawCommand) -> Vec2 {
    match c.cmd {
        Command::DrawSprite { size, .. } => size,
    }
}

pub open spec fn sprite_pivot(c: DrawCommand) -> Vec2 {
    match c.cmd {
        Command::DrawSprite { pivot, .. } => pivot,
    }
}

/// Local corner positions of a quad, bottom-left, bottom-right, top-right,
/// top-left, in an unrotated frame whose origin is the quad's corner.
pub open spec fn quad_positions(size: Vec2) -> Seq<i32> {
    seq![
        0i32, 0i32, 0i32,
        size.x, 0i32, 0i32,
        size.x, size.y, 0i32,
        0i32, size.y, 0i32,
    ]
}

/// The command's color, once for each of the four corners.
pub open spec fn quad_colors(k: Color) -> Seq<u8> {
    seq![k.r, k.g, k.b, k.a, k.r, k.g, k.b, k.a, k.r, k.g, k.b, k.a, k.r, k.g, k.b, k.a]
}

pub open spec fn quad_uvs(c: DrawCommand) -> Seq<TexCoord> {
    match c.cmd {
        Command::DrawSprite { texture_flip, uvs, .. } => sprite_uvs(c.texture, texture_flip, uvs),
    }
}

/// The two triangles `(0, 1, 2)` and `(2, 3, 0)` of quad number `q`, whose
/// vertices are `4q .. 4q + 3`.
pub open spec fn quad_indices(q: nat) -> Seq<u32> {
    let b = 4 * q;
    seq![b as u32, (b + 1) as u32, (b + 2) as u32, (b + 2) as u32, (b + 3) as u32, b as u32]
}

/// Depth of a layer, in tenths: `layer / 10 + 0.1`.
pub open spec fn depth_tenths(layer: i32) -> int {
    layer + 1
}

/// The draw call of command `c`, which is quad number `q` of its frame.
pub open spec fn draw_call_for(c: DrawCommand, q: nat) -> DrawCall {
    DrawCall {
        start: (6 * q) as usize,
        count: 6,
        translation: Vec3 { x: c.pos.x, y: c.pos.y, z_tenths: depth_tenths(c.layer) as i64 },
        pivot: sprite_pivot(c),
        rot: c.rot,
        texture_object: c.texture.obj,
    }
}

pub open spec fn flat_positions(cmds: Seq<DrawCommand>) -> Seq<i32>
    decreases cmds.len(),
{
    if cmds.len() == 0 {
        seq![]
    } else {
        flat_positions(cmds.drop_last()) + quad_positions(sprite_size(cmds.last()))
    }
}

pub open spec fn flat_colors(cmds: Seq<DrawCommand>) -> Seq<u8>
    decreases cmds.len(),
{
    if cmds.len() == 0 {
        seq![]
    } else {
        flat_colors(cmds.drop_last()) + quad_colors(cmds.last().color)
    }
}

pub open spec fn flat_uvs(cmds: Seq<DrawCommand>) -> Seq<TexCoord>
    decreases cmds.len(),
{
    if cmds.len() == 0 {
        seq![]
    } else {
        flat_uvs(cmds.drop_last()) + quad_uvs(cmds.last())
    }
}

pub open spec fn flat_indices(n: nat) -> Seq<u32>
    decreases n,
{
    if n == 0 {
        seq![]
    } else {
        flat_indices((n - 1) as nat) + quad_indices((n - 1) as nat)
    }
}

/// The current program after the commands ran: the last nonzero program among
/// them, or `prog0` if there is none.
pub open spec fn program_after(prog0: Program, cmds: Seq<DrawCommand>) -> Program
    decreases cmds.len(),
{
    if cmds.len() == 0 {
        prog0
    } else if cmds.last().program != 0 {
        cmds.last().program
    } else {
        program_after(prog0, cmds.drop_last())
    }
}

/// The bound texture after the commands ran.
pub open spec fn texture_after(tex0: u32, cmds: Seq<DrawCommand>) -> u32 {
    if cmds.len() == 0 {
        tex0
    } else {
        cmds.last().texture.obj
    }
}

pub open spec fn program_ops(p: Program, c: DrawCommand) -> Seq<GpuOp> {
    if c.program != 0 && c.program != p {
        seq![GpuOp::UseProgram(c.program)]
    } else {
        seq![]
    }
}

pub open spec fn texture_ops(t: u32, c: DrawCommand) -> Seq<GpuOp> {
    if c.texture.obj != t {
        seq![GpuOp::BindTexture(c.texture.obj)]
    } else {
        seq![]
    }
}

/// The operations for quad number `q`, with program `p` and texture `t` current.
pub open spec fn command_ops(p: Program, t: u32, c: DrawCommand, q: nat) -> Seq<GpuOp> {
    program_ops(p, c) + texture_ops(t, c) + seq![GpuOp::Draw(draw_call_for(c, q))]
}

pub open spec fn dispatch_ops(prog0: Program, tex0: u32, cmds: Seq<DrawCommand>) -> Seq<GpuOp>
    decreases cmds.len(),
{
    if cmds.len() == 0 {
        seq![]
    } else {
        let prev = cmds.drop_last();
        dispatch_ops(prog0, tex0, prev) + command_ops(
            program_after(prog0, prev),
            texture_after(tex0, prev),
            cmds.last(),
            prev.len(),
        )
    }
}

/// A frame re-selects the current program, uploads the geometry once, then
/// switches state only where a command needs it, and draws.
pub open spec fn frame_ops(prog0: Program, tex0: u32, cmds: Seq<DrawCommand>) -> Seq<GpuOp> {
    seq![GpuOp::UseProgram(prog0), GpuOp::Upload] + dispatch_ops(prog0, tex0, cmds)
}

/// `f` is the frame that draws `cmds`, starting with program `prog0` and texture `tex0`.
pub open spec fn frame_matches(f: Frame, prog0: Program, tex0: u32, cmds: Seq<DrawCommand>) -> bool {
    &&& f.positions@ == flat_positions(cmds)
    &&& f.colors@ == flat_colors(cmds)
    &&& f.uvs@ == flat_uvs(cmds)
    &&& f.indices@ == flat_indices(cmds.len())
    &&& f.ops@ == frame_ops(prog0, tex0, cmds)
}

proof fn lemma_take_step(s: Seq<DrawCommand>, i: int)
    requires
        0 <= i < s.len(),
    ensures
        s.take(i + 1).drop_last() == s.take(i),
        s.take(i + 1).last() == s[i],
        s.take(i + 1).len() == i + 1,
{
    assert(s.take(i + 1).drop_last() =~= s.take(i));
}

fn push_quad_positions(v: &mut Vec<i32>, size: Vec2)
    ensures
        final(v)@ == old(v)@ + quad_positions(size),
{
    v.push(0);
    v.push(0);
    v.push(0);
    v.push(size.x);
    v.push(0);
    v.push(0);
    v.push(size.x);
    v.push(size.y);
    v.push(0);
    v.push(0);
    v.push(size.y);
    v.push(0);
    assert(v@ =~= old(v)@ + quad_positions(size));
}

fn push_quad_colors(v: &mut Vec<u8>, k: Color)
    ensures
        final(v)@ == old(v)@ + quad_colors(k),
{
    let mut corner: usize = 0;
    while corner < 4
        invariant
            corner <= 4,
            v@ == old(v)@ + quad_colors(k).take(4 * corner as int),
        decreases 4 - corner,
    {
        v.push(k.r);
        v.push(k.g);
        v.push(k.b);
        v.push(k.a);
        assert(quad_colors(k).take(4 * (corner + 1) as int) =~= quad_colors(k).take(
            4 * corner as int,
        ).push(k.r).push(k.g).push(k.b).push(k.a));
        corner = corner + 1;
    }
    assert(quad_colors(k).take(16) =~= quad_colors(k));
}

fn push_quad_indices(v: &mut Vec<u32>, q: usize)
    requires
        q < MAX_QUEUED,
    ensures
        final(v)@ == old(v)@ + quad_indices(q as nat),
{
    let b: u32 = (4 * q) as u32;
    v.push(b);
    v.push(b + 1);
    v.push(b + 2);
    v.push(b + 2);
    v.push(b + 3);
    v.push(b);
    assert(v@ =~= old(v)@ + quad_indices(q as nat));
}

fn append_quad_uvs(v: &mut Vec<TexCoord>, c: &DrawCommand)
    ensures
        final(v)@ == old(v)@ + quad_uvs(*c),
{
    let mut coords = match c.cmd {
        Command::DrawSprite { texture_flip, uvs, .. } => sprite_tex_coords(
            c.texture,
            texture_flip,
            uvs,
        ),
    };
    v.append(&mut coords);
}

fn make_draw_call(c: &DrawCommand, q: usize) -> (r: DrawCall)
    requires
        q < MAX_QUEUED,
    ensures
        r == draw_call_for(*c, q as nat),
{
    let pivot = match c.cmd {
        Command::DrawSprite { pivot, .. } => pivot,
    };
    DrawCall {
        start: 6 * q,
        count: 6,
        translation: Vec3 { x: c.pos.x, y: c.pos.y, z_tenths: c.layer as i64 + 1 },
        pivot,
        rot: c.rot,
        texture_object: c.texture.obj,
    }
}

/// Assembles the geometry of `cmds` in submission order and plans the GPU
/// operations that draw them, starting from program `prog0` and texture `tex0`.
/// Also returns the program and texture that are current afterwards.
pub fn assemble_frame(prog0: Program, tex0: u32, cmds: &Vec<DrawCommand>) -> (r: (Frame, Program, u32))
    requires
        cmds@.len() <= MAX_QUEUED,
    ensures
        frame_matches(r.0, prog0, tex0, cmds@),
        r.1 == program_after(prog0, cmds@),
        r.2 == texture_after(tex0, cmds@),
{
    let n = cmds.len();
    let mut positions: Vec<i32> = Vec::new();
    let mut colors: Vec<u8> = Vec::new();
    let mut uvs: Vec<TexCoord> = Vec::new();
    let mut indices: Vec<u32> = Vec::new();
    let mut ops: Vec<GpuOp> = vec![GpuOp::UseProgram(prog0), GpuOp::Upload];
    let mut prog: Program = prog0;
    let mut tex: u32 = tex0;
    let mut i: usize = 0;
    proof {
        assert(cmds@.take(0) =~= Seq::<DrawCommand>::empty());
        assert(ops@ =~= frame_ops(prog0, tex0, cmds@.take(0)));
    }
    while i < n
        invariant
            n == cmds@.len(),
            n <= MAX_QUEUED,
            i <= n,
            positions@ == flat_positions(cmds@.take(i as int)),
            colors@ == flat_colors(cmds@.take(i as int)),
            uvs@ == flat_uvs(cmds@.take(i as int)),
            indices@ == flat_indices(i as nat),
            ops@ == frame_ops(prog0, tex0, cmds@.take(i as int)),
            prog == program_after(prog0, cmds@.take(i as int)),
            tex == texture_after(tex0, cmds@.take(i as int)),
        decreases n - i,
    {
        let c = cmds[i];
        proof {
            lemma_take_step(cmds@, i as int);
        }
        let ghost ops_before = ops@;
        let ghost prev = cmds@.take(i as int);
        if c.program != 0 && c.program != prog {
            ops.push(GpuOp::UseProgram(c.program));
            prog = c.program;
        }
        let ghost after_program = ops@;
        if c.texture.obj != tex {
            ops.push(GpuOp::BindTexture(c.texture.obj));
            tex = c.texture.obj;
        }
        let ghost after_texture = ops@;
        let call = make_draw_call(&c, i);
        ops.push(GpuOp::Draw(call));
        proof {
            assert(after_program =~= ops_before + program_ops(program_after(prog0, prev), c));
            assert(after_texture =~= after_program + texture_ops(texture_after(tex0, prev), c));
            assert(ops@ =~= ops_before + command_ops(
                program_after(prog0, prev),
                texture_after(tex0, prev),
                c,
                i as nat,
            ));
        }
        match c.cmd {
            Command::DrawSprite { size, .. } => push_quad_positions(&mut positions, size),
        }
        push_quad_colors(&mut colors, c.color);
        append_quad_uvs(&mut uvs, &c);
        push_quad_indices(&mut indices, i);
        i = i + 1;
    }
    proof {
        assert(cmds@.take(n as int) =~= cmds@);
    }
    let frame = Frame { positions, colors, uvs, indices, ops };
    (frame, prog, tex)
}

/// The state-change tracker and draw-command queue of a renderer. It remembers
/// which program and texture are current on the GPU and collects the commands
/// of a frame until they are flushed.
pub struct Renderer {
    current_program: Program,
    current_texture_object: u32,
    world_draw_cmds: Vec<DrawCommand>,
}

impl Renderer {
    /// The program that is current on the GPU.
    pub closed spec fn program(&self) -> Program {
        self.current_program
    }

    /// The texture object bound on the GPU (0 before the first bind).
    pub closed spec fn texture(&self) -> u32 {
        self.current_texture_object
    }

    /// The commands queued for the next flush, in submission order.
    pub closed spec fn queued(&self) -> Seq<DrawCommand> {
        self.world_draw_cmds@
    }

    pub open spec fn wf(&self) -> bool {
        self.queued().len() <= MAX_QUEUED
    }

    /// A renderer whose current program is `default_program`, with no texture
    /// bound and nothing queued.
    pub fn new(default_program: Program) -> (r: Renderer)
        ensures
            r.wf(),
            r.program() == default_program,
            r.texture() == 0,
            r.queued() == Seq::<DrawCommand>::empty(),
    {
        Renderer {
            current_program: default_program,
            current_texture_object: 0,
            world_draw_cmds: Vec::new(),
        }
    }

    pub fn current_program(&self) -> (r: Program)
        ensures
            r == self.program(),
    {
        self.current_program
    }

    pub fn current_texture_object(&self) -> (r: u32)
        ensures
            r == self.texture(),
    {
        self.current_texture_object
    }

    /// Number of commands waiting for the next flush.
    pub fn queued_len(&self) -> (r: usize)
        ensures
            r == self.queued().len(),
    {
        self.world_draw_cmds.len()
    }

    /// Appends a command to the frame's queue, after all earlier ones.
    pub fn queue(&mut self, cmd: DrawCommand)
        requires
            old(self).wf(),
            old(self).queued().len() < MAX_QUEUED,
        ensures
            final(self).wf(),
            final(self).queued() == old(self).queued().push(cmd),
            final(self).program() == old(self).program(),
            final(self).texture() == old(self).texture(),
    {
        self.world_draw_cmds.push(cmd);
    }

    /// Queues `sprite` drawn at `transform` in `color`, with the current program.
    pub fn queue_draw_sprite(&mut self, transform: &Transform, sprite: &Sprite, color: Color)
        requires
            old(self).wf(),
            old(self).queued().len() < MAX_QUEUED,
        ensures
            final(self).wf(),
            final(self).queued() == old(self).queued().push(
                sprite_command(*transform, *sprite, color),
            ),
            final(self).program() == old(self).program(),
            final(self).texture() == old(self).texture(),
    {
        let cmd = DrawCommand::sprite(transform, sprite, color);
        self.queue(cmd);
    }

    /// Takes every queued command and turns them into one frame of geometry
    /// and GPU operations, leaving the queue empty and the tracker on the
    /// program and texture that the frame ends with. With nothing queued it
    /// returns `None` and changes nothing.
    pub fn render_queued_draws(&mut self) -> (r: Option<Frame>)
        requires
            old(self).wf(),
        ensures
            final(self).wf(),
            old(self).queued().len() == 0 ==> r is None && *final(self) == *old(self),
            old(self).queued().len() > 0 ==> {
                &&& r is Some
                &&& frame_matches(
                    r.unwrap(),
                    old(self).program(),
                    old(self).texture(),
                    old(self).queued(),
                )
                &&& final(self).queued() == Seq::<DrawCommand>::empty()
                &&& final(self).program() == program_after(old(self).program(), old(self).queued())
                &&& final(self).texture() == texture_after(old(self).texture(), old(self).queued())
            },
    {
        if self.world_draw_cmds.len() == 0 {
            return None;
        }
        let (frame, prog, tex) = assemble_frame(
            self.current_program,
            self.current_texture_object,
            &self.world_draw_cmds,
        );
        self.current_program = prog;
        self.current_texture_object = tex;
        self.world_draw_cmds.clear();
        Some(frame)
    }
}

} // verus!
