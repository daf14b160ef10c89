//! Bounded, wrap-around arena of parallel vertex buffers reused across
//! frames without reallocation.
//!
//! Three parallel buffers hold per-vertex data (positions as three 32-bit
//! lanes, texture coordinates as two, colors as four bytes); a separate index
//! buffer holds identity-mapped indices written once at construction. A write
//! cursor advances one slot per vertex; an emitted-count counter advances per
//! draw command, and whenever it would exceed the capacity minus a reserved
//! headroom the cursor rewinds to the buffer start. The headroom must exceed
//! any single command's vertex run, so no run ever straddles a rewind.

use vstd::prelude::*;

verus! {

/// Vertex capacity of the scratch buffers in the default sizing.
pub const POOL_CAPACITY: usize = 0x200000;

/// Reserved headroom: the cursor rewinds as soon as the emitted count
/// exceeds `POOL_CAPACITY - POOL_HEADROOM`.
pub const POOL_HEADROOM: usize = 0x66700;

/// Number of identity-mapped entries in the static index buffer.
pub const INDEX_COUNT: usize = 0xF000;

/// Fixed-capacity scratch arena for one frame's emitted geometry.
pub struct ScratchVertexPool {
    /// Three 32-bit lanes per vertex slot.
    pub positions: Vec<u32>,
    /// Two 32-bit lanes per vertex slot.
    pub texcoords: Vec<u32>,
    /// Four bytes per vertex slot.
    pub colors: Vec<u8>,
    /// Identity-mapped indices, written once here and never mutated.
    pub indices: Vec<u16>,
    /// Slot receiving the next vertex.
    pub cursor: usize,
    /// Vertices emitted since the last rewind.
    pub emitted: usize,
    /// Total vertex slots; fixed after construction.
    pub capacity: usize,
    /// Reserved slots that no single command's vertex run may exceed.
    pub headroom: usize,
}

impl ScratchVertexPool {
    /// Structural well-formedness: buffer lengths match the capacity, the
    /// index buffer is the identity map, and the cursor is in range.
    pub open spec fn wf(self) -> bool {
        &&& self.positions@.len() == 3 * self.capacity
        &&& self.texcoords@.len() == 2 * self.capacity
        &&& self.colors@.len() == 4 * self.capacity
        &&& self.indices@.len() == INDEX_COUNT
        &&& forall|i: int| 0 <= i < INDEX_COUNT ==> self.indices@[i] == i as u16
        &&& self.cursor <= self.capacity
        &&& 0 < self.headroom <= self.capacity
        &&& self.capacity <= 0x1000_0000
    }

    /// Steady state between draw commands: the emitted count has cleared the
    /// headroom check and the cursor never runs ahead of it.
    pub open spec fn steady(self) -> bool {
        &&& self.cursor <= self.emitted
        &&& self.emitted <= self.capacity - self.headroom
    }

    /// A fresh pool with the given sizing, cursor and counter at the start.
    pub fn with_capacity(capacity: usize, headroom: usize) -> (p: Self)
        requires
            0 < headroom <= capacity,
            capacity <= 0x1000_0000,
        ensures
            p.wf(),
            p.steady(),
            p.cursor == 0,
            p.emitted == 0,
            p.capacity == capacity,
            p.headroom == headroom,
    {
        let mut positions: Vec<u32> = Vec::new();
        let mut texcoords: Vec<u32> = Vec::new();
        let mut colors: Vec<u8> = Vec::new();
        let mut indices: Vec<u16> = Vec::new();
        let mut i: usize = 0;
        while i < 3 * capacity
            invariant
                positions@.len() == i,
                i <= 3 * capacity,
                capacity <= 0x1000_0000,
            decreases 3 * capacity - i,
        {
            positions.push(0);
            i = i + 1;
        }
        let mut i: usize = 0;
        while i < 2 * capacity
            invariant
                texcoords@.len() == i,
                i <= 2 * capacity,
                capacity <= 0x1000_0000,
            decreases 2 * capacity - i,
        {
            texcoords.push(0);
            i = i + 1;
        }
        let mut i: usize = 0;
        while i < 4 * capacity
            invariant
                colors@.len() == i,
                i <= 4 * capacity,
                capacity <= 0x1000_0000,
            decreases 4 * capacity - i,
        {
            colors.push(0);
            i = i + 1;
        }
        let mut i: usize = 0;
        while i < INDEX_COUNT
            invariant
                indices@.len() == i,
                i <= INDEX_COUNT,
                forall|j: int| 0 <= j < i ==> indices@[j] == j as u16,
            decreases INDEX_COUNT - i,
        {
            indices.push(i as u16);
            i = i + 1;
        }
        ScratchVertexPool {
            positions,
            texcoords,
            colors,
            indices,
            cursor: 0,
            emitted: 0,
            capacity,
            headroom,
        }
    }

    /// A pool in the default sizing.
    pub fn new() -> (p: Self)
        ensures
            p.wf(),
            p.steady(),
            p.cursor == 0,
            p.emitted == 0,
            p.capacity == POOL_CAPACITY,
            p.headroom == POOL_HEADROOM,
    {
        Self::with_capacity(POOL_CAPACITY, POOL_HEADROOM)
    }

    /// Appends one vertex across the three parallel buffers at the cursor and
    /// advances the cursor; every other slot is left untouched.
    pub fn write_vertex(
        &mut self,
        px: u32,
        py: u32,
        pz: u32,
        tu: u32,
        tv: u32,
        cr: u8,
        cg: u8,
        cb: u8,
        ca: u8,
    )
        requires
            old(self).wf(),
            old(self).cursor < old(self).capacity,
        ensures
            final(self).wf(),
            final(self).cursor == old(self).cursor + 1,
            final(self).emitted == old(self).emitted,
            final(self).capacity == old(self).capacity,
            final(self).headroom == old(self).headroom,
            final(self).indices@ == old(self).indices@,
            final(self).positions@ == old(self).positions@.update(
                3 * old(self).cursor,
                px,
            ).update(3 * old(self).cursor + 1, py).update(3 * old(self).cursor + 2, pz),
            final(self).texcoords@ == old(self).texcoords@.update(
                2 * old(self).cursor,
                tu,
            ).update(2 * old(self).cursor + 1, tv),
            final(self).colors@ == old(self).colors@.update(4 * old(self).cursor, cr).update(
                4 * old(self).cursor + 1,
                cg,
            ).update(4 * old(self).cursor + 2, cb).update(4 * old(self).cursor + 3, ca),
    {
        let c = self.cursor;
        self.positions.set(3 * c, px);
        self.positions.set(3 * c + 1, py);
        self.positions.set(3 * c + 2, pz);
        self.texcoords.set(2 * c, tu);
        self.texcoords.set(2 * c + 1, tv);
        self.colors.set(4 * c, cr);
        self.colors.set(4 * c + 1, cg);
        self.colors.set(4 * c + 2, cb);
        self.colors.set(4 * c + 3, ca);
        self.cursor = c + 1;
    }

    /// Books one finished command's element count and rewinds the cursor to
    /// the buffer start exactly when the emitted count passes the headroom
    /// threshold; buffer contents are never touched.
    pub fn maybe_rewind(&mut self, elem_count: usize)
        requires
            old(self).wf(),
            old(self).emitted + elem_count <= 0x2000_0000,
        ensures
            final(self).wf(),
            final(self).positions@ == old(self).positions@,
            final(self).texcoords@ == old(self).texcoords@,
            final(self).colors@ == old(self).colors@,
            final(self).indices@ == old(self).indices@,
            final(self).capacity == old(self).capacity,
            final(self).headroom == old(self).headroom,
            old(self).emitted + elem_count > old(self).capacity - old(self).headroom ==> {
                &&& final(self).cursor == 0
                &&& final(self).emitted == 0
            },
            old(self).emitted + elem_count <= old(self).capacity - old(self).headroom ==> {
                &&& final(self).cursor == old(self).cursor
                &&& final(self).emitted == old(self).emitted + elem_count
            },
    {
        self.emitted = self.emitted + elem_count;
        if self.emitted > self.capacity - self.headroom {
            self.cursor = 0;
            self.emitted = 0;
        }
    }
}

} // verus!
