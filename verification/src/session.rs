//! Per-frame orchestration: timing, display-size bookkeeping, input
//! sampling, and driving the draw-command replay at frame end.
//!
//! A session alternates between `Ready` and `InFrame`. `begin_frame` takes
//! the clock reading, the current viewport and the device samples, computes
//! the frame's delta time (with an exact 1/60 s fallback on the very first
//! frame, when no prior timestamp exists) and the normalized input state.
//! `end_frame` replays the GUI's draw lists through the scratch pool, or
//! does nothing at all when the framebuffer has zero area.

use vstd::prelude::*;
use crate::input::{
    sample_post, InputTranslator, NavState, PadSample, PointerState, TouchSample,
};
use crate::pool::ScratchVertexPool;
use crate::replay::{lists_wf, replay, replay_post, DrawList, DrawOp};
use crate::texture::TextureCache;

verus! {

/// Ticks per second of the monotonic clock collaborator.
pub const CLOCK_FREQUENCY: u64 = 1000000;

/// A frame's delta time, as the exact fraction `num / den` seconds.
#[derive(Clone, Copy, PartialEq, Eq, Structural)]
pub struct DeltaTime {
    pub num: u64,
    pub den: u64,
}

/// Whether a session is between frames or inside one.
#[derive(Clone, Copy, PartialEq, Eq, Structural)]
pub enum Phase {
    Ready,
    InFrame,
}

/// Everything `begin_frame` hands the host to push into the GUI's input
/// model for the starting frame.
pub struct FrameInputs {
    pub display_width: i32,
    pub display_height: i32,
    pub delta: DeltaTime,
    pub pointer: PointerState,
    pub nav: NavState,
    /// The backend must create the font texture before drawing this frame.
    pub needs_font_texture: bool,
}

/// Long-lived per-frame state: the clock's last reading, the display size,
/// the input translator, the scratch pool and the texture cache.
pub struct FrameSession {
    pub phase: Phase,
    /// Last clock reading; zero means no frame has begun yet.
    pub g_time: u64,
    pub display_width: i32,
    pub display_height: i32,
    pub input: InputTranslator,
    pub pool: ScratchVertexPool,
    pub textures: TextureCache,
}

impl FrameSession {
    pub open spec fn wf(self) -> bool {
        &&& self.input.accumulator.wf()
        &&& self.pool.wf()
        &&& self.pool.steady()
        &&& 0 <= self.display_width <= 0x10_0000
        &&& 0 <= self.display_height <= 0x10_0000
    }

    /// A fresh session, ready for its first frame, with a fresh pool in the
    /// default sizing, an empty accumulator and no font texture yet.
    pub fn new() -> (s: Self)
        ensures
            s.wf(),
            s.phase == Phase::Ready,
            s.g_time == 0,
            s.display_width == 0,
            s.display_height == 0,
            s.input.accumulator.hi_res_x == 0,
            s.input.accumulator.hi_res_y == 0,
            s.pool.cursor == 0,
            s.pool.emitted == 0,
            s.textures.handle is None,
    {
        FrameSession {
            phase: Phase::Ready,
            g_time: 0,
            display_width: 0,
            display_height: 0,
            input: InputTranslator::new(),
            pool: ScratchVertexPool::new(),
            textures: TextureCache::new(),
        }
    }

    /// Starts a frame: records the viewport as the display size, computes
    /// the delta time from the clock reading (exactly 1/60 s on the first
    /// ever frame), and fuses the device samples into pointer and
    /// navigation state. The scratch pool and texture cache are untouched.
    pub fn begin_frame(
        &mut self,
        now: u64,
        viewport_w: i32,
        viewport_h: i32,
        touch: Option<TouchSample>,
        pad: Option<PadSample>,
    ) -> (out: FrameInputs)
        requires
            old(self).wf(),
            old(self).phase == Phase::Ready,
            old(self).g_time <= now,
            0 <= viewport_w <= 0x10_0000,
            0 <= viewport_h <= 0x10_0000,
        ensures
            final(self).wf(),
            final(self).phase == Phase::InFrame,
            final(self).g_time == now,
            final(self).display_width == viewport_w,
            final(self).display_height == viewport_h,
            final(self).pool == old(self).pool,
            final(self).textures == old(self).textures,
            out.display_width == viewport_w,
            out.display_height == viewport_h,
            old(self).g_time == 0 ==> out.delta.num == 1 && out.delta.den == 60,
            old(self).g_time > 0 ==> out.delta.num == now - old(self).g_time && out.delta.den
                == CLOCK_FREQUENCY,
            out.needs_font_texture == (old(self).textures.handle is None),
            sample_post(
                old(self).input,
                final(self).input,
                viewport_w as int,
                viewport_h as int,
                touch,
                pad,
                out.pointer,
                out.nav,
            ),
    {
        let delta = if self.g_time > 0 {
            DeltaTime { num: now - self.g_time, den: CLOCK_FREQUENCY }
        } else {
            DeltaTime { num: 1, den: 60 }
        };
        self.g_time = now;
        self.display_width = viewport_w;
        self.display_height = viewport_h;
        let needs_font_texture = self.textures.needs_font_texture();
        let (pointer, nav) = self.input.sample(viewport_w, viewport_h, touch, pad);
        self.phase = Phase::InFrame;
        FrameInputs {
            display_width: viewport_w,
            display_height: viewport_h,
            delta,
            pointer,
            nav,
            needs_font_texture,
        }
    }

    /// Ends the frame by replaying the GUI's draw lists into backend draw
    /// ops through the scratch pool. A zero-area framebuffer is a defined
    /// skip: no ops, and every piece of scratch state left unchanged.
    pub fn end_frame(&mut self, lists: &Vec<DrawList>) -> (ops: Vec<DrawOp>)
        requires
            old(self).wf(),
            old(self).phase == Phase::InFrame,
            old(self).display_width != 0 && old(self).display_height != 0 ==> lists_wf(
                lists@,
                old(self).pool.headroom as int,
            ),
        ensures
            final(self).wf(),
            final(self).phase == Phase::Ready,
            final(self).g_time == old(self).g_time,
            final(self).display_width == old(self).display_width,
            final(self).display_height == old(self).display_height,
            final(self).input == old(self).input,
            final(self).textures == old(self).textures,
            old(self).display_width == 0 || old(self).display_height == 0 ==> ops@.len() == 0
                && final(self).pool == old(self).pool,
            old(self).display_width != 0 && old(self).display_height != 0 ==> replay_post(
                old(self).pool,
                final(self).pool,
                lists@,
                old(self).display_height as int,
                ops@,
            ),
    {
        self.phase = Phase::Ready;
        if self.display_width == 0 || self.display_height == 0 {
            Vec::new()
        } else {
            replay(&mut self.pool, lists, self.display_height)
        }
    }
}

} // verus!
