//! Touchpad gesture recognition: the edge-slide (brightness / volume) and
//! five-finger screenshot state machines, fed one HID frame at a time.
use vstd::prelude::*;

verus! {

/// Frames of lost contact tolerated before a gesture session is dropped.
pub const GRACE_FRAMES: u8 = 5;

/// Which edge zone a gesture started in.
#[derive(Clone, Copy, Debug, PartialEq, Eq)]
pub enum EdgeSide {
    Left,
    Right,
}

/// An armed or captured edge slide.
#[derive(Clone, Copy, Debug, PartialEq, Eq)]
pub struct EdgeSlideState {
    pub side: EdgeSide,
    /// Position at session start, used to infer vertical intent.
    pub start_x: i32,
    pub start_y: i32,
    /// Last sample.
    pub last_x: i32,
    pub last_y: i32,
    /// Vertical movement not yet turned into steps.
    pub accum: i32,
    /// False while only armed; true once vertical intent was recognised.
    pub captured: bool,
    /// Consecutive frames without a valid single-finger contact.
    pub lost_frames: u8,
}

/// Per-device gesture state.
#[derive(Clone, Copy, Debug, PartialEq, Eq)]
pub struct GestureState {
    /// Logical X maximum of the touchpad.
    pub x_max: i32,
    /// Logical Y maximum of the touchpad.
    pub y_max: i32,
    pub caps_read: bool,
    /// Time (ms) at which five or more fingers were first seen.
    pub five_start: Option<u64>,
    /// Time (ms) of the last screenshot, for the cooldown.
    pub screenshot_cooldown: Option<u64>,
    pub edge: Option<EdgeSlideState>,
    /// Whether a single-finger contact session is active.
    pub edge_contact_active: bool,
    /// Edge zone in which the current contact session started.
    pub edge_contact_start_side: Option<EdgeSide>,
    /// Consecutive frames without a valid contact in the current session.
    pub edge_contact_lost_frames: u8,
    /// True while a captured edge slide owns the pointer.
    pub pointer_suppressed: bool,
}

impl EdgeSlideState {
    pub open spec fn wf(self) -> bool {
        &&& -320 < self.accum < 320
        &&& self.lost_frames <= GRACE_FRAMES
    }
}

impl GestureState {
    /// The logical maxima are not negative, and a tracked slide keeps its
    /// accumulator below one step and its lost-frame count within the grace.
    pub open spec fn wf(self) -> bool {
        &&& 0 <= self.x_max
        &&& 0 <= self.y_max
        &&& (self.edge matches Some(e) ==> e.wf())
    }
}

impl Default for GestureState {
    fn default() -> (s: Self)
        ensures
            s.x_max == 10000,
            s.y_max == 7000,
            !s.caps_read,
            s.five_start is None,
            s.screenshot_cooldown is None,
            s.edge is None,
            !s.edge_contact_active,
            s.edge_contact_start_side is None,
            s.edge_contact_lost_frames == 0,
            !s.pointer_suppressed,
            s.wf(),
    {
        GestureState {
            x_max: 10000,
            y_max: 7000,
            caps_read: false,
            five_start: None,
            screenshot_cooldown: None,
            edge: None,
            edge_contact_active: false,
            edge_contact_start_side: None,
            edge_contact_lost_frames: 0,
            pointer_suppressed: false,
        }
    }
}

// ── Calibration ─────────────────────────────────────────────────────────────

/// A logical maximum after a caps read: the value read when one was read
/// and it is above 100, else the current one.
pub open spec fn calibrated(cur: i32, read: Option<i32>) -> i32 {
    match read {
        Some(v) => if v > 100 {
            v
        } else {
            cur
        },
        None => cur,
    }
}

/// Takes the logical maxima read from the device's value caps (`None` when
/// no caps were returned), once per device: Y and X are set from values
/// above 100, and the caps count as read.
pub fn apply_logical_maxima(state: &mut GestureState, y_logical_max: Option<i32>, x_logical_max: Option<i32>)
    requires
        old(state).wf(),
    ensures
        final(state).wf(),
        old(state).caps_read ==> *final(state) == *old(state),
        !old(state).caps_read ==> *final(state) == (GestureState {
            caps_read: true,
            y_max: calibrated(old(state).y_max, y_logical_max),
            x_max: calibrated(old(state).x_max, x_logical_max),
            ..*old(state)
        }),
{
    if state.caps_read {
        return;
    }
    if let Some(v) = y_logical_max {
        if v > 100 {
            state.y_max = v;
        }
    }
    if let Some(v) = x_logical_max {
        if v > 100 {
            state.x_max = v;
        }
    }
    state.caps_read = true;
}

// ── Geometry ────────────────────────────────────────────────────────────────

pub open spec fn clamp_int(v: int, lo: int, hi: int) -> int {
    if v < lo {
        lo
    } else if v > hi {
        hi
    } else {
        v
    }
}

pub open spec fn abs_int(v: int) -> int {
    if v < 0 {
        -v
    } else {
        v
    }
}

/// Width of the zone in which an edge slide may start (12.5% of the width).
pub open spec fn edge_thresh(x_max: int) -> int {
    x_max / 8
}

/// Vertical movement per brightness/volume step.
pub open spec fn y_step(y_max: int) -> int {
    clamp_int(y_max / 24, 28, 320)
}

/// A vertical jump larger than this means a new finger (15% of the height).
pub open spec fn jump_thresh(y_max: int) -> int {
    y_max * 15 / 100
}

/// Vertical movement needed before an armed slide is captured.
pub open spec fn activation_dy(y_max: int) -> int {
    clamp_int(y_max / 80, 12, 120)
}

/// Vertical deltas below this are treated as noise (larger on the charger).
pub open spec fn deadband(y_max: int, charger: bool) -> int {
    let pct = if charger { 4int } else { 2int };
    let base = y_max * pct / 100;
    let cap = y_step(y_max) / 2;
    if base < cap {
        base
    } else {
        cap
    }
}

/// The edge zone in which a touch at `x` starts, if any.
pub open spec fn start_side(x: int, x_max: int) -> Option<EdgeSide> {
    if x < edge_thresh(x_max) {
        Some(EdgeSide::Left)
    } else if x > x_max - edge_thresh(x_max) {
        Some(EdgeSide::Right)
    } else {
        None
    }
}

/// Whether `x` is still inside the (wider) continuation zone of `side`.
pub open spec fn in_continuation_zone(side: EdgeSide, x: int, x_max: int) -> bool {
    match side {
        EdgeSide::Left => x < x_max / 3,
        EdgeSide::Right => x > x_max * 2 / 3,
    }
}

/// The accumulator after one frame of decay toward zero (about 25%).
pub open spec fn decayed(a: int) -> int {
    if a > 0 {
        if a / 4 > 0 {
            a - a / 4
        } else if a == 1 {
            0
        } else {
            a
        }
    } else if a < 0 {
        if (-a) / 4 > 0 {
            a + (-a) / 4
        } else if a == -1 {
            0
        } else {
            a
        }
    } else {
        0
    }
}

/// Whole steps contained in `a` (rounded toward zero) and the remainder.
pub open spec fn steps_of(a: int, step: int) -> (int, int) {
    if a >= 0 {
        (a / step, a % step)
    } else {
        (-((-a) / step), -((-a) % step))
    }
}

/// Whether an armed slide shows clear vertical intent.
pub open spec fn shows_vertical_intent(total_dy: int, total_dx: int, act: int) -> bool {
    abs_int(total_dy) >= act && (abs_int(total_dy) >= abs_int(total_dx) || abs_int(total_dy)
        >= act * 2)
}

// ── Edge-slide transition ───────────────────────────────────────────────────

pub open spec fn with_decay(s: GestureState) -> GestureState {
    match s.edge {
        Some(e) => GestureState { edge: Some(EdgeSlideState { accum: decayed(e.accum as int) as i32, ..e }), ..s },
        None => s,
    }
}

/// Effect of a frame without a valid single-finger contact.
pub open spec fn on_no_contact(s: GestureState) -> GestureState {
    let s1 = if s.edge_contact_active {
        let lf = if s.edge_contact_lost_frames == 255 {
            255int
        } else {
            s.edge_contact_lost_frames + 1
        };
        if lf > GRACE_FRAMES {
            GestureState {
                edge_contact_active: false,
                edge_contact_start_side: None,
                edge_contact_lost_frames: 0,
                ..s
            }
        } else {
            GestureState { edge_contact_lost_frames: lf as u8, ..s }
        }
    } else {
        s
    };
    match s1.edge {
        Some(e) => if e.lost_frames + 1 > GRACE_FRAMES {
            GestureState { edge: None, pointer_suppressed: false, ..s1 }
        } else {
            GestureState { edge: Some(EdgeSlideState { lost_frames: (e.lost_frames + 1) as u8, ..e }), ..s1 }
        },
        None => s1,
    }
}

/// Bookkeeping of the contact session when a valid contact is seen.
pub open spec fn on_contact_session(s: GestureState, x: int) -> GestureState {
    if !s.edge_contact_active {
        GestureState {
            edge_contact_active: true,
            edge_contact_lost_frames: 0,
            edge_contact_start_side: start_side(x, s.x_max as int),
            ..s
        }
    } else {
        GestureState { edge_contact_lost_frames: 0, ..s }
    }
}

pub open spec fn moved(e: EdgeSlideState, x: i32, y: i32) -> EdgeSlideState {
    EdgeSlideState { last_x: x, last_y: y, ..e }
}

/// Effect of a valid contact on the edge-slide tracker (after decay and
/// session bookkeeping).
pub open spec fn on_contact_edge(s: GestureState, x: i32, y: i32, charger: bool) -> (
    GestureState,
    (i32, i32),
) {
    match s.edge {
        None => match s.edge_contact_start_side {
            Some(side) => (
                GestureState {
                    edge: Some(
                        EdgeSlideState {
                            side,
                            start_x: x,
                            start_y: y,
                            last_x: x,
                            last_y: y,
                            accum: 0,
                            captured: false,
                            lost_frames: 0,
                        },
                    ),
                    ..s
                },
                (0, 0),
            ),
            None => (s, (0, 0)),
        },
        Some(e) => {
            if !in_continuation_zone(e.side, x as int, s.x_max as int) {
                (GestureState { edge: None, pointer_suppressed: false, ..s }, (0, 0))
            } else if e.lost_frames > 0 {
                (GestureState { edge: Some(EdgeSlideState { lost_frames: 0, ..moved(e, x, y) }), ..s }, (0, 0))
            } else if !e.captured {
                if shows_vertical_intent(
                    e.start_y - y,
                    x - e.start_x,
                    activation_dy(s.y_max as int),
                ) {
                    (
                        GestureState {
                            edge: Some(EdgeSlideState { captured: true, accum: 0, ..moved(e, x, y) }),
                            pointer_suppressed: true,
                            ..s
                        },
                        (0, 0),
                    )
                } else {
                    (GestureState { edge: Some(moved(e, x, y)), ..s }, (0, 0))
                }
            } else {
                let dy = e.last_y - y;
                if abs_int(dy) > jump_thresh(s.y_max as int) {
                    (GestureState { edge: Some(EdgeSlideState { accum: 0, ..moved(e, x, y) }), ..s }, (0, 0))
                } else if abs_int(dy) < deadband(s.y_max as int, charger) {
                    (GestureState { edge: Some(moved(e, x, y)), ..s }, (0, 0))
                } else {
                    let (n, rem) = steps_of(e.accum + dy, y_step(s.y_max as int));
                    let out: (i32, i32) = match e.side {
                        EdgeSide::Left => (n as i32, 0),
                        EdgeSide::Right => (0, n as i32),
                    };
                    (GestureState { edge: Some(EdgeSlideState { accum: rem as i32, ..moved(e, x, y) }), ..s }, out)
                }
            }
        },
    }
}

/// One frame of the edge-slide recogniser: the next state and the
/// `(brightness_steps, volume_steps)` to perform (positive = up).
pub open spec fn edge_slide_next(
    s: GestureState,
    contact_count: u32,
    x: i32,
    y: i32,
    tip_switch: bool,
    charger: bool,
) -> (GestureState, (i32, i32)) {
    let s0 = with_decay(s);
    if contact_count != 1 || !tip_switch {
        (on_no_contact(s0), (0, 0))
    } else {
        on_contact_edge(on_contact_session(s0, x as int), x, y, charger)
    }
}

fn clamp_i32(v: i32, lo: i32, hi: i32) -> (r: i32)
    requires
        lo <= hi,
    ensures
        r == clamp_int(v as int, lo as int, hi as int),
{
    if v < lo {
        lo
    } else if v > hi {
        hi
    } else {
        v
    }
}

/// The deadband for the current touchpad height; the charger state is read
/// by the caller, since coupled noise is stronger while charging.
pub fn charger_aware_y_deadband(y_max: i32, charger: bool) -> (r: i32)
    requires
        0 <= y_max,
    ensures
        r == y_max * (if charger { 4int } else { 2int }) / 100,
{
    let pct: i64 = if charger {
        4
    } else {
        2
    };
    (y_max as i64 * pct / 100) as i32
}

fn abs_i64(v: i64) -> (r: i64)
    requires
        v > i64::MIN,
    ensures
        r == abs_int(v as int),
{
    if v < 0 {
        -v
    } else {
        v
    }
}

fn decay_accum(a: i32) -> (r: i32)
    requires
        -320 < a < 320,
    ensures
        r == decayed(a as int),
        -320 < r < 320,
{
    if a > 0 {
        let d = a / 4;
        if d > 0 {
            a - d
        } else if a == 1 {
            0
        } else {
            a
        }
    } else if a < 0 {
        let d = (-a) / 4;
        if d > 0 {
            a + d
        } else if a == -1 {
            0
        } else {
            a
        }
    } else {
        0
    }
}

/// Single-finger vertical swipe in the left (brightness) or right (volume)
/// edge zone: one action per step of vertical movement.  Returns
/// `(brightness_steps, volume_steps)`, positive = up, negative = down.
/// `charger` tells whether the AC adapter is connected (larger deadband).
pub fn handle_edge_slide(
    state: &mut GestureState,
    contact_count: u32,
    x: i32,
    y: i32,
    tip_switch: bool,
    charger: bool,
) -> (r: (i32, i32))
    requires
        old(state).wf(),
    ensures
        final(state).wf(),
        (*final(state), r) == edge_slide_next(*old(state), contact_count, x, y, tip_switch, charger),
{
    // Decay the accumulator toward zero.
    if let Some(e) = state.edge {
        state.edge = Some(EdgeSlideState { accum: decay_accum(e.accum), ..e });
    }
    let ghost s0 = *state;
    assert(s0 == with_decay(*old(state)));

    if contact_count != 1 || !tip_switch {
        if state.edge_contact_active {
            let lf: u8 = if state.edge_contact_lost_frames == 255 {
                255
            } else {
                state.edge_contact_lost_frames + 1
            };
            if lf > GRACE_FRAMES {
                state.edge_contact_active = false;
                state.edge_contact_start_side = None;
                state.edge_contact_lost_frames = 0;
            } else {
                state.edge_contact_lost_frames = lf;
            }
        }
        if let Some(e) = state.edge {
            if e.lost_frames + 1 > GRACE_FRAMES {
                state.edge = None;
                state.pointer_suppressed = false;
            } else {
                state.edge = Some(EdgeSlideState { lost_frames: e.lost_frames + 1, ..e });
            }
        }
        return (0, 0);
    }
    let x_max = state.x_max;
    let y_max = state.y_max;
    let edge_thresh = x_max / 8;
    let y_step = clamp_i32(y_max / 24, 28, 320);
    let jump_thresh: i64 = y_max as i64 * 15 / 100;
    let activation_dy = clamp_i32(y_max / 80, 12, 120);

    if !state.edge_contact_active {
        state.edge_contact_active = true;
        state.edge_contact_lost_frames = 0;
        state.edge_contact_start_side = if x < edge_thresh {
            Some(EdgeSide::Left)
        } else if x > x_max - edge_thresh {
            Some(EdgeSide::Right)
        } else {
            None
        };
    } else {
        state.edge_contact_lost_frames = 0;
    }
    let ghost s1 = *state;
    assert(s1 == on_contact_session(s0, x as int));

    match state.edge {
        None => {
            if let Some(side) = state.edge_contact_start_side {
                state.edge = Some(
                    EdgeSlideState {
                        side,
                        start_x: x,
                        start_y: y,
                        last_x: x,
                        last_y: y,
                        accum: 0,
                        captured: false,
                        lost_frames: 0,
                    },
                );
            }
            (0, 0)
        },
        Some(e) => {
            let in_zone = match e.side {
                EdgeSide::Left => x < x_max / 3,
                EdgeSide::Right => x as i64 > x_max as i64 * 2 / 3,
            };
            if !in_zone {
                state.edge = None;
                state.pointer_suppressed = false;
                return (0, 0);
            }
            if e.lost_frames > 0 {
                state.edge = Some(
                    EdgeSlideState { last_x: x, last_y: y, lost_frames: 0, ..e },
                );
                return (0, 0);
            }
            let dy: i64 = e.last_y as i64 - y as i64;
            if !e.captured {
                let total_dy = abs_i64(e.start_y as i64 - y as i64);
                let total_dx = abs_i64(x as i64 - e.start_x as i64);
                let act = activation_dy as i64;
                if total_dy >= act && (total_dy >= total_dx || total_dy >= act * 2) {
                    state.edge = Some(
                        EdgeSlideState { captured: true, accum: 0, last_x: x, last_y: y, ..e },
                    );
                    state.pointer_suppressed = true;
                } else {
                    state.edge = Some(EdgeSlideState { last_x: x, last_y: y, ..e });
                }
                return (0, 0);
            }
            let ady = abs_i64(dy);
            if ady > jump_thresh {
                state.edge = Some(EdgeSlideState { last_x: x, last_y: y, accum: 0, ..e });
                return (0, 0);
            }
            let cb = charger_aware_y_deadband(y_max, charger);
            let deadband: i64 = if cb < y_step / 2 {
                cb as i64
            } else {
                (y_step / 2) as i64
            };
            if ady < deadband {
                state.edge = Some(EdgeSlideState { last_x: x, last_y: y, ..e });
                return (0, 0);
            }
            let y_step: i64 = y_step as i64;
            let mut accum: i64 = e.accum as i64 + dy;
            let ghost a0 = accum as int;
            let mut count: i64 = 0;
            while accum >= y_step
                invariant
                    28 <= y_step <= 320,
                    a0 == accum + count * y_step,
                    a0 >= 0 ==> 0 <= accum <= a0 && 0 <= count <= a0,
                    a0 < 0 ==> accum == a0 && count == 0,
                    -1_000_000_000 <= a0 <= 1_000_000_000,
                decreases accum,
            {
                let ghost (pa, pc) = (accum as int, count as int);
                accum -= y_step;
                count += 1;
                assert(a0 == accum + count * y_step) by (nonlinear_arith)
                    requires
                        a0 == pa + pc * y_step,
                        accum == pa - y_step,
                        count == pc + 1,
                ;
                assert(count <= a0) by (nonlinear_arith)
                    requires
                        a0 == accum + count * y_step,
                        accum >= 0,
                        y_step >= 28,
                        count >= 1,
                ;
            }
            while accum <= -y_step
                invariant
                    28 <= y_step <= 320,
                    a0 == accum + count * y_step,
                    a0 >= 0 ==> 0 <= accum < y_step && 0 <= count,
                    a0 < 0 ==> a0 <= accum <= 0 && a0 <= count <= 0,
                    -1_000_000_000 <= a0 <= 1_000_000_000,
                decreases -accum,
            {
                let ghost (pa, pc) = (accum as int, count as int);
                accum += y_step;
                count -= 1;
                assert(a0 == accum + count * y_step) by (nonlinear_arith)
                    requires
                        a0 == pa + pc * y_step,
                        accum == pa + y_step,
                        count == pc - 1,
                ;
                assert(count >= a0) by (nonlinear_arith)
                    requires
                        a0 == accum + count * y_step,
                        accum <= 0,
                        y_step >= 28,
                        count <= -1,
                ;
            }
            proof {
                lemma_steps(a0, accum as int, count as int, y_step as int);
            }
            state.edge = Some(EdgeSlideState { last_x: x, last_y: y, accum: accum as i32, ..e });
            match e.side {
                EdgeSide::Left => (count as i32, 0),
                EdgeSide::Right => (0, count as i32),
            }
        },
    }
}

/// Relates the outcome of the two step loops to `steps_of`.
proof fn lemma_steps(a0: int, rem: int, count: int, step: int)
    requires
        step > 0,
        a0 == rem + count * step,
        a0 >= 0 ==> 0 <= rem < step,
        a0 < 0 ==> -step < rem <= 0,
    ensures
        steps_of(a0, step) == (count, rem),
{
    if a0 >= 0 {
        vstd::arithmetic::div_mod::lemma_fundamental_div_mod_converse(a0, step, count, rem);
    } else {
        assert(-a0 == (-rem) + (-count) * step) by (nonlinear_arith)
            requires
                a0 == rem + count * step,
        ;
        vstd::arithmetic::div_mod::lemma_fundamental_div_mod_converse(-a0, step, -count, -rem);
    }
}

// ── Five-finger screenshot ──────────────────────────────────────────────────

/// Hold time (ms) of five fingers before the screenshot fires.
pub const FIVE_FINGER_HOLD_MS: u64 = 300;
/// Cooldown (ms) after a screenshot.
pub const SCREENSHOT_COOLDOWN_MS: u64 = 3000;

/// Time elapsed since `t` on a monotonic clock reading `now`.
pub open spec fn elapsed(now: u64, t: u64) -> int {
    if now >= t {
        now - t
    } else {
        0
    }
}

/// One frame of the five-finger recogniser: the next state and whether the
/// screenshot fires.
pub open spec fn five_finger_next(s: GestureState, contact_count: u32, now: u64) -> (
    GestureState,
    bool,
) {
    if s.screenshot_cooldown matches Some(cd) && elapsed(now, cd) < SCREENSHOT_COOLDOWN_MS {
        (s, false)
    } else {
        let s1 = if s.screenshot_cooldown is Some {
            GestureState { screenshot_cooldown: None, ..s }
        } else {
            s
        };
        if contact_count >= 5 {
            match s1.five_start {
                None => (GestureState { five_start: Some(now), ..s1 }, false),
                Some(start) => if elapsed(now, start) >= FIVE_FINGER_HOLD_MS {
                    (GestureState { screenshot_cooldown: Some(now), five_start: None, ..s1 }, true)
                } else {
                    (s1, false)
                },
            }
        } else {
            (GestureState { five_start: None, ..s1 }, false)
        }
    }
}

/// Five or more fingers held for at least 300 ms fire the screenshot
/// (Win+Shift+S), with a 3 s cooldown.  `now_ms` is a monotonic clock.
pub fn handle_five_finger_gesture(state: &mut GestureState, contact_count: u32, now_ms: u64) -> (fire: bool)
    ensures
        (*final(state), fire) == five_finger_next(*old(state), contact_count, now_ms),
{
    if let Some(cd) = state.screenshot_cooldown {
        let el = if now_ms >= cd {
            now_ms - cd
        } else {
            0
        };
        if el < SCREENSHOT_COOLDOWN_MS {
            return false;
        }
        state.screenshot_cooldown = None;
    }
    if contact_count >= 5 {
        match state.five_start {
            None => {
                state.five_start = Some(now_ms);
            },
            Some(start) => {
                let el = if now_ms >= start {
                    now_ms - start
                } else {
                    0
                };
                if el >= FIVE_FINGER_HOLD_MS {
                    state.screenshot_cooldown = Some(now_ms);
                    state.five_start = None;
                    return true;
                }
            },
        }
    } else {
        state.five_start = None;
    }
    false
}

// ── Whole frame ─────────────────────────────────────────────────────────────

/// HID usage of the TipSwitch button on the digitizer page.
pub const TIP_SWITCH_USAGE: u16 = 0x42;

/// What the caller must do after a frame.
#[derive(Clone, Copy, Debug, PartialEq, Eq)]
pub struct FrameActions {
    pub screenshot: bool,
    /// Brightness steps, positive = up.
    pub brightness_steps: i32,
    /// Volume steps, positive = up.
    pub volume_steps: i32,
}

/// One value read per contact link collection: whether both reads
/// succeeded, then X and Y.
pub type ContactRead = (bool, u32, u32);

/// Index of the first link collection (among the first five) with a valid
/// contact, i.e. both reads succeeded and both coordinates are positive.
pub open spec fn first_contact(contacts: Seq<ContactRead>) -> Option<int> {
    let n = if contacts.len() < 5 {
        contacts.len() as int
    } else {
        5
    };
    if exists|i: int| 0 <= i < n && contact_valid(contacts[i]) {
        Some(choose|i: int| 0 <= i < n && contact_valid(contacts[i]) && forall|j: int| 0 <= j < i ==> !contact_valid(#[trigger] contacts[j]))
    } else {
        None
    }
}

pub open spec fn contact_valid(c: ContactRead) -> bool {
    c.0 && c.1 > 0 && c.2 > 0
}

/// Whether the finger is known to touch: the usages of the contact's link
/// collection (absent when they could not be read) hold the TipSwitch among
/// their first eight entries.
pub open spec fn tip_touching(usages: Option<Seq<u16>>) -> bool {
    match usages {
        Some(u) => u.take(if u.len() < 8 { u.len() as int } else { 8 }).contains(TIP_SWITCH_USAGE),
        None => false,
    }
}

/// The state with the edge-slide session cleared (edge slide switched off).
pub open spec fn edge_cleared(s: GestureState) -> GestureState {
    GestureState {
        edge: None,
        edge_contact_active: false,
        edge_contact_start_side: None,
        edge_contact_lost_frames: 0,
        pointer_suppressed: false,
        ..s
    }
}

/// A whole touchpad frame: the next state and the actions.
pub open spec fn frame_next(
    s: GestureState,
    screenshot_enabled: bool,
    edge_enabled: bool,
    contact_count: u32,
    contacts: Seq<ContactRead>,
    usages: Option<Seq<u16>>,
    charger: bool,
    now: u64,
) -> (GestureState, FrameActions) {
    let s0 = if edge_enabled {
        s
    } else {
        edge_cleared(s)
    };
    let (s1, shot) = if screenshot_enabled {
        five_finger_next(s0, contact_count, now)
    } else {
        (s0, false)
    };
    let (x, y, active) = match first_contact(contacts) {
        Some(i) => (contacts[i].1 as i32, contacts[i].2 as i32, tip_touching(usages)),
        None => (0i32, 0i32, false),
    };
    let (s2, steps) = if edge_enabled {
        edge_slide_next(s1, contact_count, x, y, active, charger)
    } else {
        (s1, (0i32, 0i32))
    };
    (s2, FrameActions { screenshot: shot, brightness_steps: steps.0, volume_steps: steps.1 })
}

/// Feed one touchpad frame to both recognisers.  `contacts` holds, per link
/// collection, the outcome of reading X and Y; `usages` the digitizer button
/// usages of the first valid contact's link collection (`None` when they
/// could not be read, which counts as "not touching").
pub fn process_touch_frame(
    state: &mut GestureState,
    screenshot_enabled: bool,
    edge_enabled: bool,
    contact_count: u32,
    contacts: &Vec<ContactRead>,
    usages: &Option<Vec<u16>>,
    charger: bool,
    now_ms: u64,
) -> (a: FrameActions)
    requires
        old(state).wf(),
    ensures
        final(state).wf(),
        (*final(state), a) == frame_next(
            *old(state),
            screenshot_enabled,
            edge_enabled,
            contact_count,
            contacts@,
            match usages {
                Some(u) => Some(u@),
                None => None,
            },
            charger,
            now_ms,
        ),
{
    if !edge_enabled {
        state.edge = None;
        state.edge_contact_active = false;
        state.edge_contact_start_side = None;
        state.edge_contact_lost_frames = 0;
        state.pointer_suppressed = false;
    }
    let shot = if screenshot_enabled {
        handle_five_finger_gesture(state, contact_count, now_ms)
    } else {
        false
    };
    let n = if contacts.len() < 5 {
        contacts.len()
    } else {
        5
    };
    let mut i: usize = 0;
    let mut found: Option<usize> = None;
    while i < n
        invariant
            n <= contacts.len(),
            n == (if contacts.len() < 5 { contacts.len() as int } else { 5 }),
            i <= n,
            found is None ==> forall|j: int| 0 <= j < i ==> !contact_valid(#[trigger] contacts@[j]),
            found matches Some(k) ==> k < i && contact_valid(contacts@[k as int]) && forall|j: int|
                0 <= j < k ==> !contact_valid(#[trigger] contacts@[j]),
        decreases n - i,
    {
        let c = contacts[i];
        if found.is_none() && c.0 && c.1 > 0 && c.2 > 0 {
            found = Some(i);
        }
        i += 1;
    }
    let ghost cs = contacts@;
    proof {
        match found {
            Some(k) => {
                assert(contact_valid(cs[k as int]));
                let w = choose|w: int| 0 <= w < n && contact_valid(cs[w]) && forall|j: int| 0 <= j < w ==> !contact_valid(#[trigger] cs[j]);
                assert(w == k as int) by {
                    if w < k { assert(!contact_valid(cs[w])); }
                    if k < w { assert(!contact_valid(cs[k as int])); }
                }
            },
            None => {},
        }
    }
    let (x, y, active) = match found {
        Some(k) => {
            let c = contacts[k];
            let touching = match usages {
                Some(u) => {
                    let m = if u.len() < 8 {
                        u.len()
                    } else {
                        8
                    };
                    let mut t = false;
                    let mut j: usize = 0;
                    while j < m
                        invariant
                            m <= u.len(),
                            j <= m,
                            t == u@.take(j as int).contains(TIP_SWITCH_USAGE),
                            m == (if u.len() < 8 { u.len() as int } else { 8 }),
                        decreases m - j,
                    {
                        let ghost pre = u@.take(j as int);
                        let ghost nxt = u@.take(j as int + 1);
                        proof {
                            assert(nxt == pre.push(u@[j as int]));
                            if pre.contains(TIP_SWITCH_USAGE) {
                                let k = choose|k: int| 0 <= k < pre.len() && pre[k] == TIP_SWITCH_USAGE;
                                assert(nxt[k] == TIP_SWITCH_USAGE);
                            }
                            if u@[j as int] == TIP_SWITCH_USAGE {
                                assert(nxt[j as int] == TIP_SWITCH_USAGE);
                            }
                            if nxt.contains(TIP_SWITCH_USAGE) && u@[j as int] != TIP_SWITCH_USAGE {
                                let k = choose|k: int| 0 <= k < nxt.len() && nxt[k] == TIP_SWITCH_USAGE;
                                assert(k != j);
                                assert(pre[k] == TIP_SWITCH_USAGE);
                            }
                        }
                        if u[j] == TIP_SWITCH_USAGE {
                            t = true;
                        }
                        j += 1;
                    }
                    t
                },
                None => false,
            };
            (c.1 as i32, c.2 as i32, touching)
        },
        None => (0i32, 0i32, false),
    };
    let steps = if edge_enabled {
        handle_edge_slide(state, contact_count, x, y, active, charger)
    } else {
        (0, 0)
    };
    FrameActions { screenshot: shot, brightness_steps: steps.0, volume_steps: steps.1 }
}

/// Brightness after one "up" step from `cur` (+5, at most 100).
pub fn brightness_after_up(cur: u8) -> (r: u8)
    requires
        cur <= 250,
    ensures
        r == (if cur + 5 < 100 { cur + 5 } else { 100 }),
{
    let n = cur + 5;
    if n < 100 {
        n
    } else {
        100
    }
}

/// Brightness after one "down" step from `cur` (-5, at least 10).
pub fn brightness_after_down(cur: u8) -> (r: u8)
    ensures
        r == (if cur >= 15 { cur - 5 } else { 10 }),
{
    let n = if cur >= 5 {
        cur - 5
    } else {
        0
    };
    if n > 10 {
        n
    } else {
        10
    }
}

// ── Laws of the edge-slide recogniser ───────────────────────────────────────

/// A contact session that started outside both edge zones never arms an edge
/// slide: the touch keeps behaving like a normal pointer.
pub proof fn law_center_start_never_arms(
    s: GestureState,
    contact_count: u32,
    x: i32,
    y: i32,
    tip_switch: bool,
    charger: bool,
)
    requires
        s.wf(),
        s.edge is None,
        s.edge_contact_active,
        s.edge_contact_start_side is None,
    ensures
        edge_slide_next(s, contact_count, x, y, tip_switch, charger).0.edge is None,
{
}

/// A touch that starts inside an edge zone arms (but does not yet capture)
/// the slide for that side.
pub proof fn law_edge_start_arms(s: GestureState, x: i32, y: i32, charger: bool)
    requires
        s.wf(),
        s.edge is None,
        !s.edge_contact_active,
        start_side(x as int, s.x_max as int) is Some,
    ensures
        ({
            let n = edge_slide_next(s, 1, x, y, true, charger).0;
            &&& n.edge matches Some(e)
            &&& e.side == start_side(x as int, s.x_max as int)->0
            &&& !e.captured
        }),
{
}

/// Steps are produced only by a slide that was already captured, only on the
/// side it belongs to (left = brightness, right = volume), never both.
pub proof fn law_steps_only_when_captured(
    s: GestureState,
    contact_count: u32,
    x: i32,
    y: i32,
    tip_switch: bool,
    charger: bool,
)
    requires
        s.wf(),
    ensures
        ({
            let r = edge_slide_next(s, contact_count, x, y, tip_switch, charger).1;
            (r.0 != 0 || r.1 != 0) ==> (s.edge matches Some(e) && e.captured && (e.side
                == EdgeSide::Left ==> r.1 == 0) && (e.side == EdgeSide::Right ==> r.0 == 0))
        }),
{
}

proof fn lemma_div_facts(a: int, step: int)
    requires
        a >= 0,
        step > 0,
    ensures
        a / step >= 0,
        (a / step) * step <= a,
        a / step > 0 ==> a >= step,
        a >= step ==> a / step >= 1,
{
    vstd::arithmetic::div_mod::lemma_fundamental_div_mod(a, step);
    vstd::arithmetic::div_mod::lemma_mod_pos_bound(a, step);
    let n = a / step;
    let r = a % step;
    assert(a == step * n + r);
    assert(n >= 0) by (nonlinear_arith)
        requires
            a == step * n + r,
            0 <= r < step,
            a >= 0,
    ;
    assert(n * step <= a) by (nonlinear_arith)
        requires
            a == step * n + r,
            0 <= r,
    ;
    assert(n > 0 ==> a >= step) by (nonlinear_arith)
        requires
            a == step * n + r,
            0 <= r,
            step > 0,
    ;
    assert(a >= step ==> n >= 1) by (nonlinear_arith)
        requires
            a == step * n + r,
            r < step,
            n >= 0,
    ;
}

proof fn lemma_steps_sign(a: int, step: int)
    requires
        step > 0,
    ensures
        ({
            let n = steps_of(a, step).0;
            &&& n > 0 ==> a > 0
            &&& n < 0 ==> a < 0
            &&& a >= step ==> n >= 1
            &&& a <= -step ==> n <= -1
            &&& a >= 0 ==> 0 <= n && n * step <= a
            &&& a < 0 ==> n <= 0 && (-n) * step <= -a
        }),
{
    if a >= 0 {
        lemma_div_facts(a, step);
    } else {
        lemma_div_facts(-a, step);
    }
}

/// Steps follow the finger: on either edge, a frame's brightness or volume
/// steps have the sign of the upward movement accumulated (the decayed
/// remainder plus `last_y - y`), so moving up steps up and moving down steps
/// down, the left edge stepping brightness and the right edge volume in the
/// same direction for the same movement. A whole step is never produced from
/// less than one step of movement, and a stepping frame that has moved a
/// step or more produces at least one.
pub proof fn law_steps_follow_movement(
    s: GestureState,
    contact_count: u32,
    x: i32,
    y: i32,
    tip_switch: bool,
    charger: bool,
)
    requires
        s.wf(),
    ensures
        ({
            let r = edge_slide_next(s, contact_count, x, y, tip_switch, charger).1;
            let step = y_step(s.y_max as int);
            match s.edge {
                None => r == (0i32, 0i32),
                Some(e) => {
                    let up = decayed(e.accum as int) + (e.last_y - y);
                    let n = if e.side == EdgeSide::Left { r.0 as int } else { r.1 as int };
                    &&& e.side == EdgeSide::Left ==> r.1 == 0
                    &&& e.side == EdgeSide::Right ==> r.0 == 0
                    &&& n > 0 ==> up > 0
                    &&& n < 0 ==> up < 0
                    &&& abs_int(n) * step <= abs_int(up)
                    &&& (contact_count == 1 && tip_switch && e.captured && e.lost_frames == 0
                        && in_continuation_zone(e.side, x as int, s.x_max as int)
                        && abs_int(e.last_y - y) <= jump_thresh(s.y_max as int)
                        && abs_int(e.last_y - y) >= deadband(s.y_max as int, charger))
                        ==> (up >= step ==> n >= 1) && (up <= -step ==> n <= -1)
                },
            }
        }),
{
    let step = y_step(s.y_max as int);
    assert(28 <= step <= 320);
    match s.edge {
        None => {
            assert(with_decay(s).edge is None);
            assert(edge_slide_next(s, contact_count, x, y, tip_switch, charger).1 == (0i32, 0i32));
        },
        Some(e) => {
            let up = decayed(e.accum as int) + (e.last_y - y);
            lemma_steps_sign(up, step);
            let n = steps_of(up, step).0;
            let rr = edge_slide_next(s, contact_count, x, y, tip_switch, charger).1;
            let nn = if e.side == EdgeSide::Left { rr.0 as int } else { rr.1 as int };
            let dy = e.last_y - y;
            if abs_int(dy) <= jump_thresh(s.y_max as int) {
                assert(s.y_max * 15 / 100 <= 0x7fff_ffff * 15 / 100) by (nonlinear_arith)
                    requires
                        0 <= s.y_max <= 0x7fff_ffff,
                ;
                assert(-320 < decayed(e.accum as int) < 320);
                assert(abs_int(n) <= abs_int(up)) by (nonlinear_arith)
                    requires
                        abs_int(n) * step <= abs_int(up),
                        step >= 28,
                ;
                assert(n as i32 as int == n);
            }
            assert(nn == 0 || nn == n);
            if nn == 0 {
                let z = abs_int(nn);
                assert(z == 0);
                assert(z * step == 0) by (nonlinear_arith)
                    requires
                        z == 0,
                ;
                assert(abs_int(up) >= 0);
            } else {
                assert(abs_int(n) * step <= abs_int(up)) by (nonlinear_arith)
                    requires
                        up >= 0 ==> 0 <= n && n * step <= up,
                        up < 0 ==> n <= 0 && (-n) * step <= -up,
                ;
                assert(abs_int(nn) * step <= abs_int(up));
            }
        },
    }
}

/// Pointer suppression is on exactly while a captured slide is tracked; every
/// frame keeps this so.
pub proof fn law_pointer_follows_capture(
    s: GestureState,
    contact_count: u32,
    x: i32,
    y: i32,
    tip_switch: bool,
    charger: bool,
)
    requires
        s.wf(),
        s.pointer_suppressed == (s.edge matches Some(e) && e.captured),
    ensures
        ({
            let n = edge_slide_next(s, contact_count, x, y, tip_switch, charger).0;
            n.pointer_suppressed == (n.edge matches Some(e) && e.captured)
        }),
{
}

/// A tracked slide is dropped once more than `GRACE_FRAMES` consecutive frames
/// lack a valid contact.
pub proof fn law_lost_contact_ends_slide(s: GestureState, contact_count: u32, x: i32, y: i32, tip_switch: bool, charger: bool)
    requires
        s.wf(),
        s.edge matches Some(e) && e.lost_frames == GRACE_FRAMES,
        contact_count != 1 || !tip_switch,
    ensures
        edge_slide_next(s, contact_count, x, y, tip_switch, charger).0.edge is None,
{
}

} // verus!
