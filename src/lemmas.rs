use vstd::prelude::*;

use crate::draw_command::{DrawCommand, Program};
use crate::renderer::{
    command_ops, dispatch_ops, flat_colors, flat_uvs, draw_call_for, flat_indices, flat_positions, frame_ops,
    program_after, program_ops, quad_indices, quad_positions, sprite_size, texture_after,
    sprite_pivot, texture_ops, DrawCall, GpuOp, MAX_QUEUED,
};

verus! {

/// Number of texture binds among `ops`.
pub open spec fn count_binds(ops: Seq<GpuOp>) -> nat
    decreases ops.len(),
{
    if ops.len() == 0 {
        0
    } else {
        count_binds(ops.drop_last()) + if ops.last() is BindTexture {
            1nat
        } else {
            0nat
        }
    }
}

/// Number of program switches among `ops`.
pub open spec fn count_uses(ops: Seq<GpuOp>) -> nat
    decreases ops.len(),
{
    if ops.len() == 0 {
        0
    } else {
        count_uses(ops.drop_last()) + if ops.last() is UseProgram {
            1nat
        } else {
            0nat
        }
    }
}

/// How many commands use a texture other than the one bound before them.
pub open spec fn texture_changes(tex0: u32, cmds: Seq<DrawCommand>) -> nat
    decreases cmds.len(),
{
    if cmds.len() == 0 {
        0
    } else {
        let prev = cmds.drop_last();
        texture_changes(tex0, prev) + if cmds.last().texture.obj != texture_after(tex0, prev) {
            1nat
        } else {
            0nat
        }
    }
}

/// How many commands name a program other than the current one.
pub open spec fn program_changes(prog0: Program, cmds: Seq<DrawCommand>) -> nat
    decreases cmds.len(),
{
    if cmds.len() == 0 {
        0
    } else {
        let prev = cmds.drop_last();
        let c = cmds.last();
        program_changes(prog0, prev) + if c.program != 0 && c.program != program_after(prog0, prev) {
            1nat
        } else {
            0nat
        }
    }
}

proof fn lemma_counts_concat(a: Seq<GpuOp>, b: Seq<GpuOp>)
    ensures
        count_binds(a + b) == count_binds(a) + count_binds(b),
        count_uses(a + b) == count_uses(a) + count_uses(b),
    decreases b.len(),
{
    if b.len() > 0 {
        assert((a + b).drop_last() =~= a + b.drop_last());
        lemma_counts_concat(a, b.drop_last());
    } else {
        assert(a + b =~= a);
    }
}

proof fn lemma_counts_single(op: GpuOp)
    ensures
        count_binds(seq![op]) == if op is BindTexture {
            1nat
        } else {
            0nat
        },
        count_uses(seq![op]) == if op is UseProgram {
            1nat
        } else {
            0nat
        },
{
    assert(seq![op].drop_last() =~= Seq::<GpuOp>::empty());
    assert(seq![op].last() == op);
    lemma_counts_empty();
}

proof fn lemma_counts_empty()
    ensures
        count_binds(Seq::<GpuOp>::empty()) == 0,
        count_uses(Seq::<GpuOp>::empty()) == 0,
{
}

/// The plan issues one texture bind per texture change and one program switch
/// per program change, beyond the program selected when the frame opens.
pub proof fn lemma_frame_state_changes(prog0: Program, tex0: u32, cmds: Seq<DrawCommand>)
    ensures
        count_binds(frame_ops(prog0, tex0, cmds)) == texture_changes(tex0, cmds),
        count_uses(frame_ops(prog0, tex0, cmds)) == 1 + program_changes(prog0, cmds),
{
    lemma_dispatch_counts(prog0, tex0, cmds);
    let head = seq![GpuOp::UseProgram(prog0), GpuOp::Upload];
    assert(head =~= seq![GpuOp::UseProgram(prog0)] + seq![GpuOp::Upload]);
    lemma_counts_concat(seq![GpuOp::UseProgram(prog0)], seq![GpuOp::Upload]);
    lemma_counts_single(GpuOp::UseProgram(prog0));
    lemma_counts_single(GpuOp::Upload);
    lemma_counts_concat(head, dispatch_ops(prog0, tex0, cmds));
}

proof fn lemma_dispatch_counts(prog0: Program, tex0: u32, cmds: Seq<DrawCommand>)
    ensures
        count_binds(dispatch_ops(prog0, tex0, cmds)) == texture_changes(tex0, cmds),
        count_uses(dispatch_ops(prog0, tex0, cmds)) == program_changes(prog0, cmds),
    decreases cmds.len(),
{
    if cmds.len() > 0 {
        let prev = cmds.drop_last();
        let c = cmds.last();
        let p = program_after(prog0, prev);
        let t = texture_after(tex0, prev);
        lemma_dispatch_counts(prog0, tex0, prev);
        let draw = seq![GpuOp::Draw(draw_call_for(c, prev.len()))];
        lemma_counts_concat(program_ops(p, c), texture_ops(t, c));
        lemma_counts_concat(program_ops(p, c) + texture_ops(t, c), draw);
        lemma_counts_concat(dispatch_ops(prog0, tex0, prev), command_ops(p, t, c, prev.len()));
        lemma_counts_single(GpuOp::Draw(draw_call_for(c, prev.len())));
        lemma_counts_single(GpuOp::UseProgram(c.program));
        lemma_counts_single(GpuOp::BindTexture(c.texture.obj));
        lemma_counts_empty();
    }
}

proof fn lemma_same_texture_changes_once(tex0: u32, cmds: Seq<DrawCommand>, t: u32)
    requires
        cmds.len() > 0,
        t != tex0,
        forall|i: int| 0 <= i < cmds.len() ==> (#[trigger] cmds[i]).texture.obj == t,
    ensures
        texture_changes(tex0, cmds) == 1,
    decreases cmds.len(),
{
    let prev = cmds.drop_last();
    if prev.len() > 0 {
        assert forall|i: int| 0 <= i < prev.len() implies (#[trigger] prev[i]).texture.obj == t by {
            assert(prev[i] == cmds[i]);
        }
        lemma_same_texture_changes_once(tex0, prev, t);
        assert(prev.last() == cmds[prev.len() - 1]);
    } else {
        assert(cmds.last() == cmds[0]);
        assert(texture_changes(tex0, prev) == 0);
    }
}

proof fn lemma_inherited_program_never_changes(prog0: Program, cmds: Seq<DrawCommand>)
    requires
        forall|i: int|
            0 <= i < cmds.len() ==> (#[trigger] cmds[i]).program == 0 || cmds[i].program == prog0,
    ensures
        program_changes(prog0, cmds) == 0,
        program_after(prog0, cmds) == prog0,
    decreases cmds.len(),
{
    if cmds.len() > 0 {
        let prev = cmds.drop_last();
        assert forall|i: int| 0 <= i < prev.len() implies (#[trigger] prev[i]).program == 0
            || prev[i].program == prog0 by {
            assert(prev[i] == cmds[i]);
        }
        lemma_inherited_program_never_changes(prog0, prev);
        assert(cmds.last() == cmds[cmds.len() - 1]);
    }
}

/// A frame whose commands all share one texture, other than the one bound
/// before, and all keep the current program (0 or that same program), binds
/// the texture once and selects a program once.
pub proof fn lemma_shared_state_binds_once(prog0: Program, tex0: u32, cmds: Seq<DrawCommand>, t: u32)
    requires
        cmds.len() > 0,
        t != tex0,
        forall|i: int| 0 <= i < cmds.len() ==> (#[trigger] cmds[i]).texture.obj == t,
        forall|i: int|
            0 <= i < cmds.len() ==> (#[trigger] cmds[i]).program == 0 || cmds[i].program == prog0,
    ensures
        count_binds(frame_ops(prog0, tex0, cmds)) == 1,
        count_uses(frame_ops(prog0, tex0, cmds)) == 1,
{
    lemma_frame_state_changes(prog0, tex0, cmds);
    lemma_same_texture_changes_once(tex0, cmds, t);
    lemma_inherited_program_never_changes(prog0, cmds);
}

/// When every command uses a texture other than the one before it (the first
/// one: other than the texture bound before the frame), each command binds its
/// texture.
pub proof fn lemma_alternating_textures_bind_each(prog0: Program, tex0: u32, cmds: Seq<DrawCommand>)
    requires
        cmds.len() > 0 ==> cmds[0].texture.obj != tex0,
        forall|i: int|
            0 < i < cmds.len() ==> (#[trigger] cmds[i]).texture.obj != cmds[i - 1].texture.obj,
    ensures
        count_binds(frame_ops(prog0, tex0, cmds)) == cmds.len(),
{
    lemma_frame_state_changes(prog0, tex0, cmds);
    lemma_every_texture_changes(tex0, cmds);
}

proof fn lemma_every_texture_changes(tex0: u32, cmds: Seq<DrawCommand>)
    requires
        cmds.len() > 0 ==> cmds[0].texture.obj != tex0,
        forall|i: int|
            0 < i < cmds.len() ==> (#[trigger] cmds[i]).texture.obj != cmds[i - 1].texture.obj,
    ensures
        texture_changes(tex0, cmds) == cmds.len(),
    decreases cmds.len(),
{
    if cmds.len() > 0 {
        let prev = cmds.drop_last();
        assert forall|i: int| 0 < i < prev.len() implies (#[trigger] prev[i]).texture.obj
            != prev[i - 1].texture.obj by {
            assert(prev[i] == cmds[i]);
            assert(prev[i - 1] == cmds[i - 1]);
        }
        lemma_every_texture_changes(tex0, prev);
        let n = cmds.len() - 1;
        assert(cmds.last() == cmds[n]);
        if n > 0 {
            assert(prev.last() == cmds[n - 1]);
        }
    }
}

/// Depth strictly increases with the layer, whatever the position in the
/// frame: a command on a higher layer gets a larger translation depth.
pub proof fn lemma_depth_increases_with_layer(c1: DrawCommand, q1: nat, c2: DrawCommand, q2: nat)
    requires
        c1.layer < c2.layer,
    ensures
        draw_call_for(c1, q1).translation.z_tenths < draw_call_for(c2, q2).translation.z_tenths,
        draw_call_for(c1, q1).translation.z_tenths == c1.layer + 1,
        draw_call_for(c2, q2).translation.z_tenths == c2.layer + 1,
{
}

/// Every queued sprite gets four vertices of its own, and two triangles over
/// exactly those four vertices, wound as the first quad's are: quad `q` reads
/// the vertices `4q .. 4q + 3` as `(0, 1, 2)` and `(2, 3, 0)`.
pub proof fn lemma_quad_winding(cmds: Seq<DrawCommand>, q: int)
    requires
        0 <= q < cmds.len() <= MAX_QUEUED,
    ensures
        flat_positions(cmds).len() == 12 * cmds.len(),
        flat_positions(cmds).subrange(12 * q, 12 * q + 12) == quad_positions(sprite_size(cmds[q])),
        flat_indices(cmds.len()).len() == 6 * cmds.len(),
        flat_indices(cmds.len()).subrange(6 * q, 6 * q + 6) == quad_indices(q as nat),
        forall|k: int| 0 <= k < 6 ==> (#[trigger] quad_indices(q as nat)[k]) == quad_indices(0)[k] + 4 * q,
        forall|k: int|
            0 <= k < 6 ==> 4 * q <= (#[trigger] quad_indices(q as nat)[k]) && quad_indices(q as nat)[k] < 4 * q + 4,
{
    lemma_positions_layout(cmds, q);
    lemma_indices_layout(cmds.len(), q);
}

proof fn lemma_positions_layout(cmds: Seq<DrawCommand>, q: int)
    requires
        0 <= q < cmds.len(),
    ensures
        flat_positions(cmds).len() == 12 * cmds.len(),
        flat_positions(cmds).subrange(12 * q, 12 * q + 12) == quad_positions(sprite_size(cmds[q])),
    decreases cmds.len(),
{
    let prev = cmds.drop_last();
    lemma_positions_len(prev);
    if q < prev.len() {
        lemma_positions_layout(prev, q);
        assert(prev[q] == cmds[q]);
        assert(flat_positions(cmds).subrange(12 * q, 12 * q + 12) =~= flat_positions(prev).subrange(
            12 * q,
            12 * q + 12,
        ));
    } else {
        assert(flat_positions(cmds).subrange(12 * q, 12 * q + 12) =~= quad_positions(
            sprite_size(cmds.last()),
        ));
    }
}

proof fn lemma_positions_len(cmds: Seq<DrawCommand>)
    ensures
        flat_positions(cmds).len() == 12 * cmds.len(),
    decreases cmds.len(),
{
    if cmds.len() > 0 {
        lemma_positions_len(cmds.drop_last());
    }
}

proof fn lemma_indices_len(n: nat)
    ensures
        flat_indices(n).len() == 6 * n,
    decreases n,
{
    if n > 0 {
        lemma_indices_len((n - 1) as nat);
    }
}

proof fn lemma_indices_layout(n: nat, q: int)
    requires
        0 <= q < n <= MAX_QUEUED,
    ensures
        flat_indices(n).len() == 6 * n,
        flat_indices(n).subrange(6 * q, 6 * q + 6) == quad_indices(q as nat),
        forall|k: int| 0 <= k < 6 ==> (#[trigger] quad_indices(q as nat)[k]) == quad_indices(0)[k] + 4 * q,
        forall|k: int|
            0 <= k < 6 ==> 4 * q <= (#[trigger] quad_indices(q as nat)[k]) && quad_indices(q as nat)[k] < 4 * q + 4,
    decreases n,
{
    let m = (n - 1) as nat;
    lemma_indices_len(m);
    lemma_indices_len(n);
    if q < m {
        lemma_indices_layout(m, q);
        assert(flat_indices(n).subrange(6 * q, 6 * q + 6) =~= flat_indices(m).subrange(
            6 * q,
            6 * q + 6,
        ));
    } else {
        assert(flat_indices(n).subrange(6 * q, 6 * q + 6) =~= quad_indices(q as nat));
    }
}

/// Where the model transform of `call` places the local point `p`, with the
/// rotation by `call.rot` given as the linear map `rotate` of the plane: the
/// pivot is moved to the origin, the point is rotated, then translated.
pub open spec fn model_point(call: DrawCall, p: (int, int), rotate: spec_fn(int, int) -> (int, int)) -> (
    int,
    int,
    int,
) {
    let r = rotate(p.0 - call.pivot.x, p.1 - call.pivot.y);
    (r.0 + call.translation.x, r.1 + call.translation.y, call.translation.z_tenths as int)
}

/// Rotation happens about the pivot: whatever the rotation, the sprite's
/// pivot point lands on the command's position, at the layer's depth. For a
/// sprite pivoting about its center, that is where its center is drawn.
pub proof fn lemma_pivot_lands_on_position(
    c: DrawCommand,
    q: nat,
    rotate: spec_fn(int, int) -> (int, int),
)
    requires
        rotate(0, 0) == (0int, 0int),
    ensures
        model_point(
            draw_call_for(c, q),
            (sprite_pivot(c).x as int, sprite_pivot(c).y as int),
            rotate,
        ) == (c.pos.x as int, c.pos.y as int, c.layer + 1),
{
}

/// The four geometry arrays grow in lock-step, four vertices per sprite: 12
/// position coordinates, 16 color channels, 8 texture coordinates and 6
/// indices. So a frame with something queued never uploads an empty array.
pub proof fn lemma_geometry_lock_step(cmds: Seq<DrawCommand>)
    ensures
        flat_positions(cmds).len() == 12 * cmds.len(),
        flat_colors(cmds).len() == 16 * cmds.len(),
        flat_uvs(cmds).len() == 8 * cmds.len(),
        flat_indices(cmds.len()).len() == 6 * cmds.len(),
    decreases cmds.len(),
{
    lemma_positions_len(cmds);
    lemma_indices_len(cmds.len());
    if cmds.len() > 0 {
        lemma_geometry_lock_step(cmds.drop_last());
    }
}

} // verus!
