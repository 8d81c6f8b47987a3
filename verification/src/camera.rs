//! The decisions of a first-person camera.
//!
//! Where the camera stands and looks is its owner's arithmetic. What an
//! input means for it is decided here: whether a cursor position turns the
//! camera or is only remembered, which way the pressed keys move it, and
//! where its pitch and its field of view are held back.
//!
//! Angles are single-precision numbers of degrees. This module takes and
//! returns them as their IEEE 754 bit patterns, and tells their order from
//! the bits: numbers compare as their `rank`s do, and a NaN compares with
//! nothing.

use vstd::prelude::*;

verus! {

/// The kinds of window event, as far as a camera tells them apart.
#[derive(Debug, Clone, Copy, PartialEq, Eq, Structural)]
pub enum Input {
    /// The cursor is at a new position.
    CursorPos,
    /// The wheel was turned.
    Scroll,
    /// Anything else.
    Other,
}

/// What a camera does on an event.
#[derive(Debug, Clone, Copy, PartialEq, Eq, Structural)]
pub enum Update {
    /// Remember the cursor position, and do not turn.
    Latch,
    /// Turn by the way the cursor went since the remembered position, and
    /// remember the new one.
    Rotate,
    /// Change the field of view by the way the wheel went.
    Zoom,
    /// Nothing.
    Ignore,
}

/// The ways a camera moves.
#[derive(Debug, Clone, Copy, PartialEq, Eq, Structural)]
pub enum Movement {
    /// Along the direction of view.
    Forward,
    /// Against the direction of view.
    Backward,
    /// Sideways, along the direction of view crossed with up.
    Right,
    /// Sideways, the other way.
    Left,
}

/// Which of the movement keys are held down.
#[derive(Debug, Clone, Copy, PartialEq, Eq, Structural)]
pub struct Keys {
    pub w: bool,
    pub s: bool,
    pub d: bool,
    pub a: bool,
}

/// Guards a camera against its first cursor position: there is no earlier
/// one to measure from, so the first is only remembered.
#[derive(Debug, Clone, Copy, PartialEq, Eq, Structural)]
pub struct CursorGuard {
    pub first_mouse: bool,
}

/// What `input` means to a camera that has, or has not, seen a cursor
/// position before.
pub open spec fn update_for(first_mouse: bool, input: Input) -> Update {
    match input {
        Input::CursorPos => if first_mouse {
            Update::Latch
        } else {
            Update::Rotate
        },
        Input::Scroll => Update::Zoom,
        Input::Other => Update::Ignore,
    }
}

/// The movements for the keys that are down, in the order in which they are
/// applied: W, S, D, A.
pub open spec fn movements_for(keys: Keys) -> Seq<Movement> {
    (if keys.w {
        seq![Movement::Forward]
    } else {
        Seq::empty()
    }) + (if keys.s {
        seq![Movement::Backward]
    } else {
        Seq::empty()
    }) + (if keys.d {
        seq![Movement::Right]
    } else {
        Seq::empty()
    }) + (if keys.a {
        seq![Movement::Left]
    } else {
        Seq::empty()
    })
}

impl CursorGuard {
    /// A guard that has seen no cursor position.
    pub fn new() -> (guard: Self)
        ensures
            guard.first_mouse,
    {
        CursorGuard { first_mouse: true }
    }

    /// Decides what an event does to the camera. After a cursor position
    /// the guard has seen one; other events leave it as it is.
    pub fn process_event(&mut self, input: Input) -> (update: Update)
        ensures
            update == update_for(old(self).first_mouse, input),
            final(self).first_mouse == (old(self).first_mouse && input != Input::CursorPos),
    {
        match input {
            Input::CursorPos => {
                if self.first_mouse {
                    self.first_mouse = false;
                    Update::Latch
                } else {
                    Update::Rotate
                }
            },
            Input::Scroll => Update::Zoom,
            Input::Other => Update::Ignore,
        }
    }
}

/// Decides which way the keys that are down move the camera.
pub fn process_mouse(keys: Keys) -> (moves: Vec<Movement>)
    ensures
        moves@ == movements_for(keys),
{
    let mut moves: Vec<Movement> = Vec::new();
    if keys.w {
        moves.push(Movement::Forward);
    }
    if keys.s {
        moves.push(Movement::Backward);
    }
    if keys.d {
        moves.push(Movement::Right);
    }
    if keys.a {
        moves.push(Movement::Left);
    }
    assert(moves@ =~= movements_for(keys));
    moves
}

/// The bit pattern of the highest pitch, 89 degrees.
pub const MAX_PITCH: u32 = 0x42b2_0000;

/// The bit pattern of the lowest pitch, 89 degrees below the horizon.
pub const MIN_PITCH: u32 = 0xc2b2_0000;

/// The bit pattern of the narrowest field of view, 1 degree.
pub const MIN_FOV: u32 = 0x3f80_0000;

/// The bit pattern of the widest field of view, 45 degrees.
pub const MAX_FOV: u32 = 0x4234_0000;

/// The bit pattern of positive infinity; what is greater in magnitude is
/// no number.
pub const INFINITY: u32 = 0x7f80_0000;

/// The bit that makes a number negative.
pub const SIGN: u32 = 0x8000_0000;

/// The bits of a number without its sign.
pub open spec fn magnitude(bits: u32) -> int {
    if bits >= SIGN {
        bits - SIGN
    } else {
        bits as int
    }
}

/// Whether the bits are those of a NaN.
pub open spec fn is_nan(bits: u32) -> bool {
    magnitude(bits) > INFINITY
}

/// Where a number stands among the numbers: of two numbers the one of
/// lower rank is the lesser, and the two zeros share a rank.
pub open spec fn rank(bits: u32) -> int {
    if bits >= SIGN {
        -magnitude(bits)
    } else {
        magnitude(bits)
    }
}

/// Whether `a < b`, as numbers.
pub open spec fn less(a: u32, b: u32) -> bool {
    !is_nan(a) && !is_nan(b) && rank(a) < rank(b)
}

/// Whether `a <= b`, as numbers.
pub open spec fn at_most(a: u32, b: u32) -> bool {
    !is_nan(a) && !is_nan(b) && rank(a) <= rank(b)
}

/// The pitch that a camera takes on where `pitch` is asked of it.
pub open spec fn clamped_pitch(pitch: u32) -> u32 {
    if less(MAX_PITCH, pitch) {
        MAX_PITCH
    } else if less(pitch, MIN_PITCH) {
        MIN_PITCH
    } else {
        pitch
    }
}

/// The field of view that a camera takes on where `fov` is asked of it.
pub open spec fn clamped_fov(fov: u32) -> u32 {
    if at_most(fov, MIN_FOV) {
        MIN_FOV
    } else if at_most(MAX_FOV, fov) {
        MAX_FOV
    } else {
        fov
    }
}

/// The rank of a number, and whether it is one.
fn ranked(bits: u32) -> (ranked: (bool, i64))
    ensures
        ranked.0 == !is_nan(bits),
        ranked.1 == rank(bits),
{
    if bits >= SIGN {
        let magnitude = bits - SIGN;
        (magnitude <= INFINITY, -(magnitude as i64))
    } else {
        (bits <= INFINITY, bits as i64)
    }
}

/// Tells whether `a < b`, as numbers.
pub fn is_less(a: u32, b: u32) -> (holds: bool)
    ensures
        holds == less(a, b),
{
    let (a_is_number, a_rank) = ranked(a);
    let (b_is_number, b_rank) = ranked(b);
    a_is_number && b_is_number && a_rank < b_rank
}

/// Tells whether `a <= b`, as numbers.
pub fn is_at_most(a: u32, b: u32) -> (holds: bool)
    ensures
        holds == at_most(a, b),
{
    let (a_is_number, a_rank) = ranked(a);
    let (b_is_number, b_rank) = ranked(b);
    a_is_number && b_is_number && a_rank <= b_rank
}

/// Holds a pitch back at 89 degrees above and below the horizon, so that
/// the camera never looks straight up or down. A NaN is left as it is.
pub fn clamp_pitch(pitch: u32) -> (clamped: u32)
    ensures
        clamped == clamped_pitch(pitch),
{
    if is_less(MAX_PITCH, pitch) {
        MAX_PITCH
    } else if is_less(pitch, MIN_PITCH) {
        MIN_PITCH
    } else {
        pitch
    }
}

/// Tells whether the wheel may change a field of view: only one that is
/// within its bounds is changed.
pub fn accepts_scroll(fov: u32) -> (accepts: bool)
    ensures
        accepts == (at_most(MIN_FOV, fov) && at_most(fov, MAX_FOV)),
{
    is_at_most(MIN_FOV, fov) && is_at_most(fov, MAX_FOV)
}

/// Holds a field of view back at 1 and at 45 degrees. A NaN is left as it
/// is.
pub fn clamp_fov(fov: u32) -> (clamped: u32)
    ensures
        clamped == clamped_fov(fov),
{
    if is_at_most(fov, MIN_FOV) {
        MIN_FOV
    } else if is_at_most(MAX_FOV, fov) {
        MAX_FOV
    } else {
        fov
    }
}

/// Whatever pitch is asked of a camera, the pitch it takes on is between 89
/// degrees below and 89 degrees above the horizon, unless what is asked is
/// no number. A pitch within these bounds is taken on as it is.
pub proof fn pitch_stays_in_range(pitch: u32)
    requires
        !is_nan(pitch),
    ensures
        at_most(MIN_PITCH, clamped_pitch(pitch)),
        at_most(clamped_pitch(pitch), MAX_PITCH),
        at_most(MIN_PITCH, pitch) && at_most(pitch, MAX_PITCH) ==> clamped_pitch(pitch) == pitch,
{
}

/// Whatever field of view comes of a turn of the wheel, the field of view
/// that the camera takes on is between 1 and 45 degrees, unless what comes
/// of it is no number. A field of view strictly within these bounds is
/// taken on as it is, and what was held back once is not changed by holding
/// it back again.
pub proof fn fov_stays_in_range(fov: u32)
    requires
        !is_nan(fov),
    ensures
        at_most(MIN_FOV, clamped_fov(fov)),
        at_most(clamped_fov(fov), MAX_FOV),
        less(MIN_FOV, fov) && less(fov, MAX_FOV) ==> clamped_fov(fov) == fov,
        clamped_fov(clamped_fov(fov)) == clamped_fov(fov),
{
}

/// Whether a guard that began as `first_mouse` still has seen no cursor
/// position after the events `inputs`.
pub open spec fn unseen(first_mouse: bool, inputs: Seq<Input>) -> bool
    decreases inputs.len(),
{
    if inputs.len() == 0 {
        first_mouse
    } else {
        unseen(first_mouse, inputs.drop_last()) && inputs.last() != Input::CursorPos
    }
}

/// Only the first cursor position is latched: in any run of events, a
/// cursor position that comes after another one turns the camera.
pub proof fn latch_is_once(first_mouse: bool, inputs: Seq<Input>, i: int, j: int)
    requires
        0 <= i < j < inputs.len(),
        inputs[i] == Input::CursorPos,
        inputs[j] == Input::CursorPos,
    ensures
        !unseen(first_mouse, inputs.take(j)),
        update_for(unseen(first_mouse, inputs.take(j)), inputs[j]) == Update::Rotate,
    decreases j,
{
    let seen = inputs.take(j);
    assert(seen.last() == inputs[j - 1]);
    if i < j - 1 {
        assert(seen.drop_last() =~= inputs.take(j - 1));
        if inputs[j - 1] != Input::CursorPos {
            cursor_was_seen(first_mouse, inputs.take(j - 1), i);
        }
    }
}

/// A run that holds a cursor position leaves the guard having seen one.
proof fn cursor_was_seen(first_mouse: bool, inputs: Seq<Input>, i: int)
    requires
        0 <= i < inputs.len(),
        inputs[i] == Input::CursorPos,
    ensures
        !unseen(first_mouse, inputs),
    decreases inputs.len(),
{
    if i < inputs.len() - 1 {
        cursor_was_seen(first_mouse, inputs.drop_last(), i);
    }
}

} // verus!
