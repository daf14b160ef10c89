//! Replay of the GUI's per-frame draw-command lists against the scratch
//! vertex pool.
//!
//! Each draw command's vertex run is gathered from the source vertex buffer
//! through the command's slice of the index buffer, appended to the pool with
//! a zero third position lane, and turned into one fixed-function draw call
//! description whose scissor rectangle flips the Y axis to the backend's
//! bottom-left origin. Commands that carry a user callback become callback
//! descriptions instead, but still advance the index window and the emitted
//! count, exactly like the replayed stream they stand in.

use vstd::prelude::*;
use crate::pool::ScratchVertexPool;

verus! {

/// One source vertex as the GUI emits it: two position lanes and two texture
/// lanes carried as opaque 32-bit values, and four color bytes.
#[derive(Clone, Copy)]
pub struct DrawVert {
    pub pos_x: u32,
    pub pos_y: u32,
    pub tex_u: u32,
    pub tex_v: u32,
    pub col_r: u8,
    pub col_g: u8,
    pub col_b: u8,
    pub col_a: u8,
}

/// Clip rectangle of one draw command, in framebuffer coordinates with a
/// top-left origin.
#[derive(Clone, Copy)]
pub struct ClipRect {
    pub x0: i32,
    pub y0: i32,
    pub x1: i32,
    pub y1: i32,
}

/// One command of a draw list: either a triangle batch or an opaque user
/// callback. Both kinds advance the index window by their element count.
pub enum DrawCmd {
    Draw { clip: ClipRect, elem_count: usize, texture_id: u32 },
    Callback { callback_id: usize, elem_count: usize },
}

/// One per-frame draw list: a vertex buffer, an index buffer and the
/// commands that consume consecutive windows of the index buffer.
pub struct DrawList {
    pub vertices: Vec<DrawVert>,
    pub indices: Vec<u16>,
    pub commands: Vec<DrawCmd>,
}

/// One backend action produced by the replay, for the host to perform
/// against the graphics driver.
pub enum DrawOp {
    Callback { list_index: usize, cmd_index: usize, callback_id: usize },
    Draw {
        texture_id: u32,
        scissor_x: i32,
        scissor_y: i32,
        scissor_w: i32,
        scissor_h: i32,
        elem_count: usize,
        first_vertex: usize,
    },
}

/// Element count of a command, whichever kind it is.
pub open spec fn cmd_elems(c: DrawCmd) -> int {
    match c {
        DrawCmd::Draw { elem_count, .. } => elem_count as int,
        DrawCmd::Callback { elem_count, .. } => elem_count as int,
    }
}

/// Total element count of the first `k` commands.
pub open spec fn elems_before(cmds: Seq<DrawCmd>, k: int) -> int
    decreases k,
{
    if k <= 0 {
        0
    } else {
        elems_before(cmds, k - 1) + cmd_elems(cmds[k - 1])
    }
}

proof fn lemma_elems_before_mono(cmds: Seq<DrawCmd>, a: int, b: int)
    requires
        0 <= a <= b,
    ensures
        elems_before(cmds, a) <= elems_before(cmds, b),
    decreases b,
{
    if a < b {
        lemma_elems_before_mono(cmds, a, b - 1);
    }
}

/// A draw list the replay can consume against a pool with the given
/// headroom: no command's run exceeds the headroom, the commands' windows
/// fit in the index buffer, every index points into the vertex buffer, and
/// clip rectangles are small enough for exact scissor arithmetic.
pub open spec fn list_wf(list: DrawList, headroom: int) -> bool {
    &&& forall|k: int|
        0 <= k < list.commands@.len() ==> cmd_elems(#[trigger] list.commands@[k]) <= headroom
    &&& elems_before(list.commands@, list.commands@.len() as int) <= list.indices@.len()
    &&& forall|j: int|
        0 <= j < list.indices@.len() ==> (#[trigger] list.indices@[j]) < list.vertices@.len()
    &&& forall|k: int|
        0 <= k < list.commands@.len() ==> match #[trigger] list.commands@[k] {
            DrawCmd::Draw { clip, .. } => {
                &&& -0x10_0000 <= clip.x0 <= 0x10_0000
                &&& -0x10_0000 <= clip.y0 <= 0x10_0000
                &&& -0x10_0000 <= clip.x1 <= 0x10_0000
                &&& -0x10_0000 <= clip.y1 <= 0x10_0000
            },
            DrawCmd::Callback { .. } => true,
        }
}

pub open spec fn lists_wf(lists: Seq<DrawList>, headroom: int) -> bool {
    forall|n: int| 0 <= n < lists.len() ==> list_wf(#[trigger] lists[n], headroom)
}

/// Number of commands in the first `n` lists.
pub open spec fn cmds_before(lists: Seq<DrawList>, n: int) -> int
    decreases n,
{
    if n <= 0 {
        0
    } else {
        cmds_before(lists, n - 1) + lists[n - 1].commands@.len()
    }
}

/// Number of commands across all lists.
pub open spec fn total_cmds(lists: Seq<DrawList>) -> int {
    cmds_before(lists, lists.len() as int)
}

proof fn lemma_cmds_before_mono(lists: Seq<DrawList>, a: int, b: int)
    requires
        0 <= a <= b,
    ensures
        cmds_before(lists, a) <= cmds_before(lists, b),
    decreases b,
{
    if a < b {
        lemma_cmds_before_mono(lists, a, b - 1);
    }
}

/// The op produced for command `k` of list `n`: a callback command becomes a
/// callback op carrying its position and token; a triangle batch becomes a
/// draw call with its texture, its element count and the clip rectangle
/// turned into a scissor box with the Y axis flipped
/// (`scissor_y == fb_height - clip.y1`).
pub open spec fn op_matches(op: DrawOp, c: DrawCmd, n: int, k: int, fb_height: int) -> bool {
    match c {
        DrawCmd::Draw { clip, elem_count, texture_id } => {
            &&& op is Draw
            &&& op->Draw_texture_id == texture_id
            &&& op->Draw_scissor_x == clip.x0
            &&& op->Draw_scissor_y == fb_height - clip.y1
            &&& op->Draw_scissor_w == clip.x1 - clip.x0
            &&& op->Draw_scissor_h == clip.y1 - clip.y0
            &&& op->Draw_elem_count == elem_count
        },
        DrawCmd::Callback { callback_id, elem_count } => {
            &&& op is Callback
            &&& op->Callback_list_index == n
            &&& op->Callback_cmd_index == k
            &&& op->Callback_callback_id == callback_id
        },
    }
}

/// Vertex `j` of a command's run was gathered into pool slot `slot + j`:
/// the source vertex selected by the index at `idx_offset + j`, with a zero
/// third position lane.
pub open spec fn vertex_written(
    p: ScratchVertexPool,
    list: DrawList,
    idx_offset: int,
    slot: int,
    j: int,
) -> bool {
    let v = list.vertices@[list.indices@[idx_offset + j] as int];
    &&& p.positions@[3 * (slot + j)] == v.pos_x
    &&& p.positions@[3 * (slot + j) + 1] == v.pos_y
    &&& p.positions@[3 * (slot + j) + 2] == 0u32
    &&& p.texcoords@[2 * (slot + j)] == v.tex_u
    &&& p.texcoords@[2 * (slot + j) + 1] == v.tex_v
    &&& p.colors@[4 * (slot + j)] == v.col_r
    &&& p.colors@[4 * (slot + j) + 1] == v.col_g
    &&& p.colors@[4 * (slot + j) + 2] == v.col_b
    &&& p.colors@[4 * (slot + j) + 3] == v.col_a
}

/// Replays one triangle-batch command: gathers its vertex run through the
/// index window into the pool at the cursor and describes the draw call.
/// Pool slots outside the written run are untouched.
pub fn replay_draw(
    pool: &mut ScratchVertexPool,
    list: &DrawList,
    idx_offset: usize,
    elem_count: usize,
    clip: ClipRect,
    texture_id: u32,
    fb_height: i32,
) -> (op: DrawOp)
    requires
        old(pool).wf(),
        old(pool).cursor + elem_count <= old(pool).capacity,
        idx_offset + elem_count <= list.indices@.len(),
        forall|j: int|
            0 <= j < list.indices@.len() ==> (#[trigger] list.indices@[j]) < list.vertices@.len(),
        -0x10_0000 <= clip.x0 <= 0x10_0000,
        -0x10_0000 <= clip.y0 <= 0x10_0000,
        -0x10_0000 <= clip.x1 <= 0x10_0000,
        -0x10_0000 <= clip.y1 <= 0x10_0000,
        0 <= fb_height <= 0x10_0000,
    ensures
        final(pool).wf(),
        final(pool).cursor == old(pool).cursor + elem_count,
        final(pool).emitted == old(pool).emitted,
        final(pool).capacity == old(pool).capacity,
        final(pool).headroom == old(pool).headroom,
        final(pool).indices@ == old(pool).indices@,
        op is Draw,
        op->Draw_texture_id == texture_id,
        op->Draw_scissor_x == clip.x0,
        op->Draw_scissor_y == fb_height - clip.y1,
        op->Draw_scissor_w == clip.x1 - clip.x0,
        op->Draw_scissor_h == clip.y1 - clip.y0,
        op->Draw_elem_count == elem_count,
        op->Draw_first_vertex == old(pool).cursor,
        forall|j: int|
            0 <= j < elem_count ==> vertex_written(
                *final(pool),
                *list,
                idx_offset as int,
                old(pool).cursor as int,
                j,
            ),
        forall|i: int|
            0 <= i < 3 * old(pool).capacity && !(3 * old(pool).cursor <= i < 3 * (old(
                pool,
            ).cursor + elem_count)) ==> final(pool).positions@[i] == old(pool).positions@[i],
        forall|i: int|
            0 <= i < 2 * old(pool).capacity && !(2 * old(pool).cursor <= i < 2 * (old(
                pool,
            ).cursor + elem_count)) ==> final(pool).texcoords@[i] == old(pool).texcoords@[i],
        forall|i: int|
            0 <= i < 4 * old(pool).capacity && !(4 * old(pool).cursor <= i < 4 * (old(
                pool,
            ).cursor + elem_count)) ==> final(pool).colors@[i] == old(pool).colors@[i],
{
    let first = pool.cursor;
    let ilen = list.indices.len();
    let mut j: usize = 0;
    while j < elem_count
        invariant
            pool.wf(),
            j <= elem_count,
            first == old(pool).cursor,
            first + elem_count <= pool.capacity,
            pool.cursor == first + j,
            pool.emitted == old(pool).emitted,
            pool.capacity == old(pool).capacity,
            pool.headroom == old(pool).headroom,
            pool.indices@ == old(pool).indices@,
            ilen == list.indices@.len(),
            idx_offset + elem_count <= ilen,
            forall|jj: int|
                0 <= jj < list.indices@.len() ==> (#[trigger] list.indices@[jj])
                    < list.vertices@.len(),
            forall|jj: int|
                0 <= jj < j ==> vertex_written(*pool, *list, idx_offset as int, first as int, jj),
            forall|i: int|
                0 <= i < 3 * pool.capacity && !(3 * first <= i < 3 * (first + j))
                    ==> pool.positions@[i] == old(pool).positions@[i],
            forall|i: int|
                0 <= i < 2 * pool.capacity && !(2 * first <= i < 2 * (first + j))
                    ==> pool.texcoords@[i] == old(pool).texcoords@[i],
            forall|i: int|
                0 <= i < 4 * pool.capacity && !(4 * first <= i < 4 * (first + j))
                    ==> pool.colors@[i] == old(pool).colors@[i],
        decreases elem_count - j,
    {
        let idx = list.indices[idx_offset + j] as usize;
        let v = list.vertices[idx];
        let ghost pre = *pool;
        pool.write_vertex(v.pos_x, v.pos_y, 0, v.tex_u, v.tex_v, v.col_r, v.col_g, v.col_b, v.col_a);
        proof {
            assert forall|jj: int|
                0 <= jj < j + 1 implies vertex_written(
                *pool,
                *list,
                idx_offset as int,
                first as int,
                jj,
            ) by {
                if jj < j {
                    assert(vertex_written(pre, *list, idx_offset as int, first as int, jj));
                    assert(3 * (first + jj) + 2 < 3 * (first + j));
                    assert(2 * (first + jj) + 1 < 2 * (first + j));
                    assert(4 * (first + jj) + 3 < 4 * (first + j));
                }
            }
        }
        j = j + 1;
    }
    DrawOp::Draw {
        texture_id,
        scissor_x: clip.x0,
        scissor_y: fb_height - clip.y1,
        scissor_w: clip.x1 - clip.x0,
        scissor_h: clip.y1 - clip.y0,
        elem_count,
        first_vertex: first,
    }
}

/// What a full replay guarantees: the pool stays well formed and back in
/// steady state with its sizing and static index buffer untouched, and the
/// op stream describes every command of every list, in order.
pub open spec fn replay_post(
    pre: ScratchVertexPool,
    post: ScratchVertexPool,
    lists: Seq<DrawList>,
    fb_height: int,
    ops: Seq<DrawOp>,
) -> bool {
    &&& post.wf()
    &&& post.steady()
    &&& post.capacity == pre.capacity
    &&& post.headroom == pre.headroom
    &&& post.indices@ == pre.indices@
    &&& ops.len() == total_cmds(lists)
    &&& forall|n: int, k: int|
        0 <= n < lists.len() && 0 <= k < lists[n].commands@.len() ==> op_matches(
            #[trigger] ops[cmds_before(lists, n) + k],
            lists[n].commands@[k],
            n,
            k,
            fb_height,
        )
}

/// Walks every command of every list: draw commands gather their vertex run
/// into the pool and become draw calls, callback commands become callback
/// ops; after each command the pool books the element count and rewinds at
/// the headroom threshold.
pub fn replay(pool: &mut ScratchVertexPool, lists: &Vec<DrawList>, fb_height: i32) -> (ops: Vec<
    DrawOp,
>)
    requires
        old(pool).wf(),
        old(pool).steady(),
        lists_wf(lists@, old(pool).headroom as int),
        0 <= fb_height <= 0x10_0000,
    ensures
        replay_post(*old(pool), *final(pool), lists@, fb_height as int, ops@),
{
    let mut ops: Vec<DrawOp> = Vec::new();
    let mut n: usize = 0;
    while n < lists.len()
        invariant
            pool.wf(),
            pool.steady(),
            pool.capacity == old(pool).capacity,
            pool.headroom == old(pool).headroom,
            pool.indices@ == old(pool).indices@,
            lists_wf(lists@, pool.headroom as int),
            0 <= fb_height <= 0x10_0000,
            n <= lists@.len(),
            ops@.len() == cmds_before(lists@, n as int),
            forall|n2: int, k2: int|
                0 <= n2 < n && 0 <= k2 < lists@[n2].commands@.len() ==> op_matches(
                    #[trigger] ops@[cmds_before(lists@, n2) + k2],
                    lists@[n2].commands@[k2],
                    n2,
                    k2,
                    fb_height as int,
                ),
        decreases lists@.len() - n,
    {
        let list = &lists[n];
        let list_ilen = list.indices.len();
        let mut idx_offset: usize = 0;
        let mut k: usize = 0;
        proof {
            lemma_elems_before_mono(list.commands@, 0, list.commands@.len() as int);
        }
        while k < list.commands.len()
            invariant
                pool.wf(),
                pool.steady(),
                pool.capacity == old(pool).capacity,
                pool.headroom == old(pool).headroom,
                pool.indices@ == old(pool).indices@,
                lists_wf(lists@, pool.headroom as int),
                0 <= fb_height <= 0x10_0000,
                n < lists@.len(),
                *list == lists@[n as int],
                list_wf(*list, pool.headroom as int),
                k <= list.commands@.len(),
                list_ilen == list.indices@.len(),
                idx_offset == elems_before(list.commands@, k as int),
                idx_offset <= list_ilen,
                ops@.len() == cmds_before(lists@, n as int) + k,
                forall|n2: int, k2: int|
                    0 <= n2 < n && 0 <= k2 < lists@[n2].commands@.len() ==> op_matches(
                        #[trigger] ops@[cmds_before(lists@, n2) + k2],
                        lists@[n2].commands@[k2],
                        n2,
                        k2,
                        fb_height as int,
                    ),
                forall|k2: int|
                    0 <= k2 < k ==> op_matches(
                        #[trigger] ops@[cmds_before(lists@, n as int) + k2],
                        lists@[n as int].commands@[k2],
                        n as int,
                        k2,
                        fb_height as int,
                    ),
            decreases list.commands@.len() - k,
        {
            proof {
                lemma_elems_before_mono(list.commands@, k as int + 1, list.commands@.len() as int);
                assert(elems_before(list.commands@, k as int + 1) == idx_offset + cmd_elems(
                    list.commands@[k as int],
                ));
                lemma_cmds_before_mono(lists@, 0, n as int);
            }
            let cmd = &list.commands[k];
            let ec: usize = match cmd {
                DrawCmd::Draw { elem_count, .. } => *elem_count,
                DrawCmd::Callback { elem_count, .. } => *elem_count,
            };
            let ghost prev_ops = ops@;
            let op = match cmd {
                DrawCmd::Draw { clip, elem_count, texture_id } => replay_draw(
                    pool,
                    list,
                    idx_offset,
                    *elem_count,
                    *clip,
                    *texture_id,
                    fb_height,
                ),
                DrawCmd::Callback { callback_id, .. } => DrawOp::Callback {
                    list_index: n,
                    cmd_index: k,
                    callback_id: *callback_id,
                },
            };
            ops.push(op);
            pool.maybe_rewind(ec);
            idx_offset = idx_offset + ec;
            proof {
                assert(op_matches(op, list.commands@[k as int], n as int, k as int, fb_height as int));
                assert forall|n2: int, k2: int|
                    0 <= n2 < n && 0 <= k2 < lists@[n2].commands@.len() implies op_matches(
                    #[trigger] ops@[cmds_before(lists@, n2) + k2],
                    lists@[n2].commands@[k2],
                    n2,
                    k2,
                    fb_height as int,
                ) by {
                    lemma_cmds_before_mono(lists@, 0, n2);
                    lemma_cmds_before_mono(lists@, n2 + 1, n as int);
                    assert(cmds_before(lists@, n2) + k2 < prev_ops.len());
                    assert(ops@[cmds_before(lists@, n2) + k2] == prev_ops[cmds_before(
                        lists@,
                        n2,
                    ) + k2]);
                }
                assert forall|k2: int| 0 <= k2 < k + 1 implies op_matches(
                    #[trigger] ops@[cmds_before(lists@, n as int) + k2],
                    lists@[n as int].commands@[k2],
                    n as int,
                    k2,
                    fb_height as int,
                ) by {
                    if k2 < k {
                        assert(ops@[cmds_before(lists@, n as int) + k2] == prev_ops[cmds_before(
                            lists@,
                            n as int,
                        ) + k2]);
                    } else {
                        assert(ops@[cmds_before(lists@, n as int) + k2] == op);
                    }
                }
            }
            k = k + 1;
        }
        proof {
            assert(cmds_before(lists@, n as int + 1) == cmds_before(lists@, n as int)
                + lists@[n as int].commands@.len());
        }
        n = n + 1;
    }
    ops
}

} // verus!
