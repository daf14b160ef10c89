//! Normalization of raw touch and gamepad samples into one synthetic
//! pointer/button/navigation model.
//!
//! The gamepad path recenters the raw 8-bit stick axes, passes them through
//! the dead-zone rescale, accumulates the rescaled motion in a high-resolution
//! accumulator and divides by a fixed slowdown divisor to obtain integer
//! deltas, keeping the remainder so that slow motion is never lost.

use vstd::prelude::*;
use crate::analog::{rescale, rescale_spec, mag, ANALOG_MAX, STICK_DEAD_ZONE};

verus! {

/// Divisor applied to accumulated stick motion before it becomes integer
/// pointer deltas; the remainder stays in the accumulator.
pub const POINTER_SLOWDOWN: u32 = 2048;

/// Offset subtracted from a raw 8-bit stick axis to recenter it at zero.
pub const STICK_CENTER: u32 = 127;

/// Factor by which a recentered stick axis is widened before rescaling.
pub const STICK_SCALE: u32 = 256;

/// Gamepad button bits, as the pad sampling collaborator reports them.
pub const BTN_CROSS: u32 = 0x4000;

pub const BTN_CIRCLE: u32 = 0x2000;

pub const BTN_TRIANGLE: u32 = 0x1000;

pub const BTN_SQUARE: u32 = 0x8000;

pub const BTN_UP: u32 = 0x10;

pub const BTN_RIGHT: u32 = 0x20;

pub const BTN_DOWN: u32 = 0x40;

pub const BTN_LEFT: u32 = 0x80;

pub const BTN_LTRIGGER: u32 = 0x100;

pub const BTN_RTRIGGER: u32 = 0x200;

/// Quotient of truncating division (toward zero), as Rust's `/` computes it.
pub open spec fn tdiv(a: int, d: int) -> int {
    if a >= 0 {
        a / d
    } else {
        -((-a) / d)
    }
}

/// Remainder of truncating division; carries the sign of the dividend.
pub open spec fn trem(a: int, d: int) -> int {
    a - d * tdiv(a, d)
}

/// Truncating division with remainder, on a dividend far from the `i64`
/// limits.
fn div_trunc(a: i64, d: u32) -> (r: (i64, i64))
    requires
        0 < d,
        -0x4000_0000_0000_0000 <= a <= 0x4000_0000_0000_0000,
    ensures
        r.0 == tdiv(a as int, d as int),
        r.1 == trem(a as int, d as int),
        -(d as int) < r.1 < d as int,
        mag(r.0 as int) <= mag(a as int),
{
    let dl: u64 = d as u64;
    if a >= 0 {
        let n: u64 = a as u64;
        let q: u64 = n / dl;
        let rem: u64 = n % dl;
        proof {
            vstd::arithmetic::div_mod::lemma_fundamental_div_mod(n as int, dl as int);
            vstd::arithmetic::div_mod::lemma_mod_bound(n as int, dl as int);
            vstd::arithmetic::div_mod::lemma_div_is_ordered_by_denominator(n as int, 1, dl as int);
            vstd::arithmetic::div_mod::lemma_div_pos_is_pos(n as int, dl as int);
        }
        ((q as i64), (rem as i64))
    } else {
        let n: u64 = (-a) as u64;
        let q: u64 = n / dl;
        let rem: u64 = n % dl;
        proof {
            vstd::arithmetic::div_mod::lemma_fundamental_div_mod(n as int, dl as int);
            vstd::arithmetic::div_mod::lemma_mod_bound(n as int, dl as int);
            vstd::arithmetic::div_mod::lemma_div_is_ordered_by_denominator(n as int, 1, dl as int);
            vstd::arithmetic::div_mod::lemma_div_pos_is_pos(n as int, dl as int);
            assert(trem(a as int, d as int) == -(rem as int)) by (nonlinear_arith)
                requires
                    a < 0,
                    d > 0,
                    n == -(a as int),
                    n == (dl as int) * ((n as int) / (dl as int)) + (n as int) % (dl as int),
                    dl == d,
                    q == (n as int) / (dl as int),
                    rem == (n as int) % (dl as int),
                    tdiv(a as int, d as int) == -((n as int) / (dl as int)),
                    trem(a as int, d as int) == a - (d as int) * tdiv(a as int, d as int),
            ;
        }
        (-(q as i64), -(rem as i64))
    }
}

/// Sub-divisor residue of rescaled stick motion carried across frames, so
/// that slow stick movement still eventually produces integer deltas.
pub struct AnalogAccumulator {
    pub hi_res_x: i64,
    pub hi_res_y: i64,
}

impl AnalogAccumulator {
    /// The residue always stays strictly inside one slowdown unit.
    pub open spec fn wf(self) -> bool {
        &&& -(POINTER_SLOWDOWN as int) < self.hi_res_x < POINTER_SLOWDOWN as int
        &&& -(POINTER_SLOWDOWN as int) < self.hi_res_y < POINTER_SLOWDOWN as int
    }

    pub fn new() -> (a: Self)
        ensures
            a.hi_res_x == 0,
            a.hi_res_y == 0,
            a.wf(),
    {
        AnalogAccumulator { hi_res_x: 0, hi_res_y: 0 }
    }

    /// Adds one frame's rescaled stick motion and pays out whole slowdown
    /// units as integer deltas, keeping the remainder.
    pub fn absorb(&mut self, dx: i32, dy: i32) -> (out: (i32, i32))
        requires
            old(self).wf(),
            -0x4000_0000 <= dx <= 0x4000_0000,
            -0x4000_0000 <= dy <= 0x4000_0000,
        ensures
            final(self).wf(),
            out.0 == tdiv(old(self).hi_res_x + dx, POINTER_SLOWDOWN as int),
            out.1 == tdiv(old(self).hi_res_y + dy, POINTER_SLOWDOWN as int),
            final(self).hi_res_x == trem(old(self).hi_res_x + dx, POINTER_SLOWDOWN as int),
            final(self).hi_res_y == trem(old(self).hi_res_y + dy, POINTER_SLOWDOWN as int),
            mag(out.0 as int) <= mag(old(self).hi_res_x + dx),
            mag(out.1 as int) <= mag(old(self).hi_res_y + dy),
    {
        let totx: i64 = self.hi_res_x + dx as i64;
        let toty: i64 = self.hi_res_y + dy as i64;
        let (qx, rx) = div_trunc(totx, POINTER_SLOWDOWN);
        let (qy, ry) = div_trunc(toty, POINTER_SLOWDOWN);
        self.hi_res_x = rx;
        self.hi_res_y = ry;
        (qx as i32, qy as i32)
    }
}

/// Residue left in one accumulator axis after `n` frames that each add the
/// constant rescaled delta `d`, starting from an empty accumulator, with
/// slowdown divisor `s`.
pub open spec fn residue_after(n: nat, d: int, s: int) -> int
    decreases n,
{
    if n == 0 {
        0
    } else {
        trem(residue_after((n - 1) as nat, d, s) + d, s)
    }
}

/// Integer delta paid out at frame `n` of that sequence.
pub open spec fn emitted_at(n: nat, d: int, s: int) -> int {
    tdiv(residue_after(n, d, s) + d, s)
}

proof fn lemma_stalled(d: int, s: int, n: nat)
    requires
        0 < d < s,
        forall|i: nat| i < n ==> emitted_at(i, d, s) == 0,
    ensures
        residue_after(n, d, s) == n * d,
        n * d < s,
    decreases n,
{
    if n == 0 {
        assert(0 * d == 0) by (nonlinear_arith);
    } else {
        lemma_stalled(d, s, (n - 1) as nat);
        let prev = residue_after((n - 1) as nat, d, s);
        assert(prev + d == n * d) by (nonlinear_arith)
            requires
                prev == (n - 1) as nat * d,
                n >= 1,
        ;
        assert(emitted_at((n - 1) as nat, d, s) == 0);
        assert(tdiv(n * d, s) == 0);
        assert(n * d >= 0) by (nonlinear_arith)
            requires
                n >= 0,
                d > 0,
        ;
        vstd::arithmetic::div_mod::lemma_fundamental_div_mod(n * d, s);
        vstd::arithmetic::div_mod::lemma_mod_bound(n * d, s);
        assert(n * d < s) by (nonlinear_arith)
            requires
                n * d >= 0,
                s > 0,
                (n * d) / s == 0,
                n * d == s * ((n * d) / s) + (n * d) % s,
                0 <= (n * d) % s < s,
        ;
        assert(residue_after(n, d, s) == trem(prev + d, s));
        assert(trem(n * d, s) == n * d - s * 0);
    }
}

/// Law: repeated small sub-divisor deltas are never permanently lost.
/// Feeding a constant positive delta `d` below the slowdown divisor `s` for
/// `n` frames with `n * d >= s` pays out a nonzero integer delta at least
/// once.
pub proof fn lemma_accumulator_progress(d: int, s: int, n: nat)
    requires
        0 < d < s,
        n * d >= s,
    ensures
        exists|i: nat| i < n && emitted_at(i, d, s) != 0,
{
    if !(exists|i: nat| i < n && emitted_at(i, d, s) != 0) {
        assert forall|i: nat| i < n implies emitted_at(i, d, s) == 0 by {
            if emitted_at(i, d, s) != 0 {
                assert(exists|j: nat| j < n && emitted_at(j, d, s) != 0);
            }
        }
        lemma_stalled(d, s, n);
        assert(false);
    }
}

/// One frame's primary touch point and touch-slot press flags, as the touch
/// sampling collaborator reports them, already mapped to display space.
#[derive(Clone, Copy)]
pub struct TouchSample {
    pub x: i32,
    pub y: i32,
    pub pressed: [bool; 3],
}

/// One frame's raw gamepad state: button bitmask and 8-bit-centered sticks.
#[derive(Clone, Copy)]
pub struct PadSample {
    pub buttons: u32,
    pub lx: u8,
    pub ly: u8,
}

/// The synthetic pointer handed to the GUI each frame.
#[derive(Clone, Copy)]
pub struct PointerState {
    pub x: i32,
    pub y: i32,
    pub buttons: [bool; 3],
}

/// The thirteen navigation signals derived from the gamepad. Stick
/// deflections are reported as nonnegative numerators over a denominator of
/// sixteen.
#[derive(Clone, Copy)]
pub struct NavState {
    pub activate: bool,
    pub cancel: bool,
    pub input: bool,
    pub menu: bool,
    pub dpad_left: bool,
    pub dpad_right: bool,
    pub dpad_up: bool,
    pub dpad_down: bool,
    pub focus_prev: bool,
    pub focus_next: bool,
    pub lstick_left_num: u32,
    pub lstick_right_num: u32,
    pub lstick_up_num: u32,
    pub lstick_down_num: u32,
}

/// Whether `mask` is set in `buttons`.
pub open spec fn btn(buttons: u32, mask: u32) -> bool {
    buttons & mask != 0
}

/// The navigation state of a frame without gamepad input.
pub open spec fn nav_rest() -> NavState {
    NavState {
        activate: false,
        cancel: false,
        input: false,
        menu: false,
        dpad_left: false,
        dpad_right: false,
        dpad_up: false,
        dpad_down: false,
        focus_prev: false,
        focus_next: false,
        lstick_left_num: 0,
        lstick_right_num: 0,
        lstick_up_num: 0,
        lstick_down_num: 0,
    }
}

/// Clamped to the inclusive range `[lo, hi]`.
pub open spec fn clamp_spec(v: int, lo: int, hi: int) -> int {
    if v < lo {
        lo
    } else if v > hi {
        hi
    } else {
        v
    }
}

pub fn clamp_i32(v: i32, lo: i32, hi: i32) -> (r: i32)
    requires
        lo <= hi,
    ensures
        r == clamp_spec(v as int, lo as int, hi as int),
{
    if v < lo {
        lo
    } else if v > hi {
        hi
    } else {
        v
    }
}

/// Recentered, widened value of one raw stick axis.
pub open spec fn recenter(v: u8) -> int {
    (v - STICK_CENTER) * (STICK_SCALE as int)
}

/// Fuses the two device samples into the frame's pointer and navigation
/// state. `pre`/`post` are the translator before and after; `ptr` and `nav`
/// are what it returned.
pub open spec fn sample_post(
    pre: InputTranslator,
    post: InputTranslator,
    display_w: int,
    display_h: int,
    touch: Option<TouchSample>,
    pad: Option<PadSample>,
    ptr: PointerState,
    nav: NavState,
) -> bool {
    let touched = pre.touch_usage && touch is Some;
    let mx1 = if touched {
        touch->Some_0.x as int
    } else {
        pre.mx as int
    };
    let my1 = if touched {
        touch->Some_0.y as int
    } else {
        pre.my as int
    };
    let btns1 = if touched {
        touch->Some_0.pressed
    } else {
        pre.mouse_pressed
    };
    let padded = pre.gamepad_usage && pad is Some;
    &&& post.touch_usage == pre.touch_usage
    &&& post.gamepad_usage == pre.gamepad_usage
    &&& post.mx == clamp_spec(mx1, 0, display_w)
    &&& post.my == clamp_spec(my1, 0, display_h)
    &&& post.mouse_pressed@ =~= btns1@
    &&& ptr.x == post.mx
    &&& ptr.y == post.my
    &&& ptr.buttons@ =~= btns1@
    &&& if padded {
        let p = pad->Some_0;
        let r = rescale_spec(
            recenter(p.lx),
            recenter(p.ly),
            STICK_DEAD_ZONE as int,
            ANALOG_MAX as int,
        );
        let totx = pre.accumulator.hi_res_x + r.0;
        let toty = pre.accumulator.hi_res_y + r.1;
        let dx = tdiv(totx, POINTER_SLOWDOWN as int);
        let dy = tdiv(toty, POINTER_SLOWDOWN as int);
        &&& post.accumulator.hi_res_x == trem(totx, POINTER_SLOWDOWN as int)
        &&& post.accumulator.hi_res_y == trem(toty, POINTER_SLOWDOWN as int)
        &&& nav.activate == btn(p.buttons, BTN_CROSS)
        &&& nav.cancel == btn(p.buttons, BTN_CIRCLE)
        &&& nav.input == btn(p.buttons, BTN_TRIANGLE)
        &&& nav.menu == btn(p.buttons, BTN_SQUARE)
        &&& nav.dpad_left == btn(p.buttons, BTN_LEFT)
        &&& nav.dpad_right == btn(p.buttons, BTN_RIGHT)
        &&& nav.dpad_up == btn(p.buttons, BTN_UP)
        &&& nav.dpad_down == btn(p.buttons, BTN_DOWN)
        &&& nav.focus_prev == btn(p.buttons, BTN_LTRIGGER)
        &&& nav.focus_next == btn(p.buttons, BTN_RTRIGGER)
        &&& nav.lstick_left_num == if dx < 0 {
            -dx
        } else {
            0
        }
        &&& nav.lstick_right_num == if dx > 0 {
            dx
        } else {
            0
        }
        &&& nav.lstick_up_num == if dy < 0 {
            -dy
        } else {
            0
        }
        &&& nav.lstick_down_num == if dy > 0 {
            dy
        } else {
            0
        }
    } else {
        &&& post.accumulator == pre.accumulator
        &&& nav == nav_rest()
    }
}

/// Per-frame fusion of touch and gamepad samples into the pointer model the
/// GUI expects. Owns the cross-frame analog accumulator and the last pointer
/// position.
pub struct InputTranslator {
    pub touch_usage: bool,
    pub gamepad_usage: bool,
    pub accumulator: AnalogAccumulator,
    pub mx: i32,
    pub my: i32,
    pub mouse_pressed: [bool; 3],
}

impl InputTranslator {
    pub fn new() -> (t: Self)
        ensures
            t.touch_usage,
            t.gamepad_usage,
            t.accumulator.hi_res_x == 0,
            t.accumulator.hi_res_y == 0,
            t.accumulator.wf(),
            t.mx == 0,
            t.my == 0,
            t.mouse_pressed@ =~= seq![false, false, false],
    {
        InputTranslator {
            touch_usage: true,
            gamepad_usage: true,
            accumulator: AnalogAccumulator::new(),
            mx: 0,
            my: 0,
            mouse_pressed: [false, false, false],
        }
    }

    /// Produces this frame's pointer and navigation state from the device
    /// samples, clamping the pointer into the display bounds and absorbing
    /// stick motion into the accumulator.
    pub fn sample(
        &mut self,
        display_w: i32,
        display_h: i32,
        touch: Option<TouchSample>,
        pad: Option<PadSample>,
    ) -> (out: (PointerState, NavState))
        requires
            old(self).accumulator.wf(),
            0 <= display_w,
            0 <= display_h,
        ensures
            final(self).accumulator.wf(),
            sample_post(
                *old(self),
                *final(self),
                display_w as int,
                display_h as int,
                touch,
                pad,
                out.0,
                out.1,
            ),
    {
        if self.touch_usage {
            match touch {
                Some(t) => {
                    self.mx = t.x;
                    self.my = t.y;
                    self.mouse_pressed = t.pressed;
                },
                None => {},
            }
        }
        let nav: NavState = if self.gamepad_usage && pad.is_some() {
            let p = pad.unwrap();
            let rawx: i32 = (p.lx as i32 - 127) * 256;
            let rawy: i32 = (p.ly as i32 - 127) * 256;
            let (sx, sy) = rescale(rawx, rawy, STICK_DEAD_ZONE, ANALOG_MAX);
            let (dx, dy) = self.accumulator.absorb(sx, sy);
            NavState {
                activate: p.buttons & BTN_CROSS != 0,
                cancel: p.buttons & BTN_CIRCLE != 0,
                input: p.buttons & BTN_TRIANGLE != 0,
                menu: p.buttons & BTN_SQUARE != 0,
                dpad_left: p.buttons & BTN_LEFT != 0,
                dpad_right: p.buttons & BTN_RIGHT != 0,
                dpad_up: p.buttons & BTN_UP != 0,
                dpad_down: p.buttons & BTN_DOWN != 0,
                focus_prev: p.buttons & BTN_LTRIGGER != 0,
                focus_next: p.buttons & BTN_RTRIGGER != 0,
                lstick_left_num: if dx < 0 {
                    (-dx) as u32
                } else {
                    0
                },
                lstick_right_num: if dx > 0 {
                    dx as u32
                } else {
                    0
                },
                lstick_up_num: if dy < 0 {
                    (-dy) as u32
                } else {
                    0
                },
                lstick_down_num: if dy > 0 {
                    dy as u32
                } else {
                    0
                },
            }
        } else {
            NavState {
                activate: false,
                cancel: false,
                input: false,
                menu: false,
                dpad_left: false,
                dpad_right: false,
                dpad_up: false,
                dpad_down: false,
                focus_prev: false,
                focus_next: false,
                lstick_left_num: 0,
                lstick_right_num: 0,
                lstick_up_num: 0,
                lstick_down_num: 0,
            }
        };
        self.mx = clamp_i32(self.mx, 0, display_w);
        self.my = clamp_i32(self.my, 0, display_h);
        let ptr = PointerState { x: self.mx, y: self.my, buttons: self.mouse_pressed };
        (ptr, nav)
    }
}

} // verus!
