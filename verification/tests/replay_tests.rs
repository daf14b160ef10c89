use imgui_renderer::pool::ScratchVertexPool;
use imgui_renderer::replay::{replay, ClipRect, DrawCmd, DrawList, DrawOp, DrawVert};

fn vert(px: u32, py: u32) -> DrawVert {
    DrawVert {
        pos_x: px,
        pos_y: py,
        tex_u: px + 100,
        tex_v: py + 100,
        col_r: 10,
        col_g: 20,
        col_b: 30,
        col_a: 40,
    }
}

#[test]
fn single_command_flips_scissor_y() {
    let mut pool = ScratchVertexPool::with_capacity(100, 50);
    let list = DrawList {
        vertices: vec![vert(1, 2), vert(3, 4), vert(5, 6), vert(7, 8)],
        indices: vec![0, 1, 2, 2, 1, 3],
        commands: vec![
            DrawCmd::Draw {
                clip: ClipRect { x0: 10, y0: 20, x1: 110, y1: 220 },
                elem_count: 6,
                texture_id: 7,
            },
        ],
    };
    let ops = replay(&mut pool, &vec![list], 544);
    assert_eq!(ops.len(), 1);
    match &ops[0] {
        DrawOp::Draw {
            texture_id,
            scissor_x,
            scissor_y,
            scissor_w,
            scissor_h,
            elem_count,
            first_vertex,
        } => {
            assert_eq!(*texture_id, 7);
            assert_eq!(*scissor_x, 10);
            // the Y axis is flipped: 544 - y1
            assert_eq!(*scissor_y, 544 - 220);
            assert_eq!(*scissor_w, 100);
            assert_eq!(*scissor_h, 200);
            assert_eq!(*elem_count, 6);
            assert_eq!(*first_vertex, 0);
        },
        _ => panic!("expected a draw op"),
    }
    // gathered vertices: indices 0,1,2,2,1,3, positions get a zero z lane
    assert_eq!(pool.cursor, 6);
    assert_eq!(pool.positions[0..3], [1, 2, 0]);
    assert_eq!(pool.positions[3..6], [3, 4, 0]);
    assert_eq!(pool.positions[6..9], [5, 6, 0]);
    assert_eq!(pool.positions[9..12], [5, 6, 0]);
    assert_eq!(pool.positions[12..15], [3, 4, 0]);
    assert_eq!(pool.positions[15..18], [7, 8, 0]);
    assert_eq!(pool.texcoords[0..2], [101, 102]);
    assert_eq!(pool.colors[0..4], [10, 20, 30, 40]);
}

#[test]
fn callback_command_becomes_callback_op() {
    let mut pool = ScratchVertexPool::with_capacity(100, 50);
    let list = DrawList {
        vertices: vec![],
        indices: vec![0, 0, 0],
        commands: vec![DrawCmd::Callback { callback_id: 99, elem_count: 3 }],
    };
    let ops = replay(&mut pool, &vec![list], 544);
    assert_eq!(ops.len(), 1);
    match &ops[0] {
        DrawOp::Callback { list_index, cmd_index, callback_id } => {
            assert_eq!(*list_index, 0);
            assert_eq!(*cmd_index, 0);
            assert_eq!(*callback_id, 99);
        },
        _ => panic!("expected a callback op"),
    }
    // a callback writes no vertices but still books its element count
    assert_eq!(pool.cursor, 0);
    assert_eq!(pool.emitted, 3);
}

#[test]
fn second_command_follows_first_and_rewind_restarts() {
    let mut pool = ScratchVertexPool::with_capacity(100, 50);
    // threshold is 50: two 30-element commands, the second one rewinds after
    let mk_cmd = |tex: u32| DrawCmd::Draw {
        clip: ClipRect { x0: 0, y0: 0, x1: 10, y1: 10 },
        elem_count: 30,
        texture_id: tex,
    };
    let vertices: Vec<DrawVert> = (0..30u32).map(|i| vert(i, i)).collect();
    let indices: Vec<u16> = (0..30u16).chain(0..30u16).chain(0..30u16).collect();
    let list = DrawList {
        vertices,
        indices,
        commands: vec![mk_cmd(1), mk_cmd(2), mk_cmd(3)],
    };
    let ops = replay(&mut pool, &vec![list], 544);
    assert_eq!(ops.len(), 3);
    let firsts: Vec<usize> = ops
        .iter()
        .map(|op| match op {
            DrawOp::Draw { first_vertex, .. } => *first_vertex,
            _ => panic!("expected draw ops"),
        })
        .collect();
    // first command at 0; second right behind it; after the rewind the third
    // starts again at the buffer start
    assert_eq!(firsts, vec![0, 30, 0]);
    assert_eq!((pool.cursor, pool.emitted), (30, 30));
}

#[test]
fn two_lists_replay_in_order() {
    let mut pool = ScratchVertexPool::with_capacity(100, 50);
    let mk_list = |tex: u32| DrawList {
        vertices: vec![vert(1, 1), vert(2, 2), vert(3, 3)],
        indices: vec![0, 1, 2],
        commands: vec![
            DrawCmd::Draw {
                clip: ClipRect { x0: 0, y0: 0, x1: 5, y1: 5 },
                elem_count: 3,
                texture_id: tex,
            },
        ],
    };
    let ops = replay(&mut pool, &vec![mk_list(11), mk_list(22)], 100);
    assert_eq!(ops.len(), 2);
    let texs: Vec<u32> = ops
        .iter()
        .map(|op| match op {
            DrawOp::Draw { texture_id, .. } => *texture_id,
            _ => panic!("expected draw ops"),
        })
        .collect();
    assert_eq!(texs, vec![11, 22]);
}
