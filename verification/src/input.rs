//! Keyboard state for one frame and the cursor-capture rules.
use vstd::prelude::*;

verus! {

/// Keys held down this frame.
pub struct HeldKeys {
    pub w: bool,
    pub a: bool,
    pub s: bool,
    pub d: bool,
    pub shift_left: bool,
    pub shift_right: bool,
    pub space: bool,
    pub f: bool,
    pub r: bool,
    pub e: bool,
}

/// Whether the edge-triggered keys were held last frame.
pub struct EdgeMemory {
    pub f: bool,
    pub r: bool,
    pub e: bool,
}

/// The controls the game reads: movement keys as held, and the action keys
/// only on the frame they go down.
pub struct KeysPressed {
    pub w: bool,
    pub a: bool,
    pub s: bool,
    pub d: bool,
    pub shift: bool,
    pub space: bool,
    pub f_pressed: bool,
    pub r_pressed: bool,
    pub e_pressed: bool,
}

/// A key went down this frame.
pub open spec fn rising(now: bool, before: bool) -> bool {
    now && !before
}

/// The controls read from this frame's keys and last frame's memory.
pub open spec fn keys_from(held: HeldKeys, last: EdgeMemory) -> KeysPressed {
    KeysPressed {
        w: held.w,
        a: held.a,
        s: held.s,
        d: held.d,
        shift: held.shift_left || held.shift_right,
        space: held.space,
        f_pressed: rising(held.f, last.f),
        r_pressed: rising(held.r, last.r),
        e_pressed: rising(held.e, last.e),
    }
}

/// Reads this frame's controls and remembers the action keys for the next.
pub fn capture_input(held: &HeldKeys, last: &mut EdgeMemory) -> (k: KeysPressed)
    ensures
        k == keys_from(*held, *old(last)),
        k.w == held.w && k.a == held.a && k.s == held.s && k.d == held.d,
        k.shift == (held.shift_left || held.shift_right),
        k.space == held.space,
        k.f_pressed == (held.f && !old(last).f),
        k.r_pressed == (held.r && !old(last).r),
        k.e_pressed == (held.e && !old(last).e),
        *final(last) == (EdgeMemory { f: held.f, r: held.r, e: held.e }),
{
    let k = KeysPressed {
        w: held.w,
        a: held.a,
        s: held.s,
        d: held.d,
        shift: held.shift_left || held.shift_right,
        space: held.space,
        f_pressed: held.f && !last.f,
        r_pressed: held.r && !last.r,
        e_pressed: held.e && !last.e,
    };
    last.f = held.f;
    last.r = held.r;
    last.e = held.e;
    k
}

/// Law: an action key acts once per press. Holding it down over two frames
/// reports it on the first frame at most, never on the second.
pub proof fn press_acts_once(held1: HeldKeys, held2: HeldKeys, last: EdgeMemory)
    requires
        held1.f && held2.f,
    ensures
        !keys_from(held2, EdgeMemory { f: held1.f, r: held1.r, e: held1.e }).f_pressed,
        keys_from(held1, last).f_pressed == !last.f,
{
}

/// Law: either Shift key sprints. The sprint control is on exactly when the
/// left or the right Shift is held, whatever the other keys and the
/// memory of the last frame; the movement keys and Space read as held.
pub proof fn either_shift_sprints(held: HeldKeys, last: EdgeMemory)
    ensures
        held.shift_left ==> keys_from(held, last).shift,
        held.shift_right ==> keys_from(held, last).shift,
        !held.shift_left && !held.shift_right ==> !keys_from(held, last).shift,
        keys_from(held, last).w == held.w,
        keys_from(held, last).a == held.a,
        keys_from(held, last).s == held.s,
        keys_from(held, last).d == held.d,
        keys_from(held, last).space == held.space,
{
}

/// Law: an action key is reported exactly on the frame it goes down: when
/// it is held now and was not held last frame.
pub proof fn action_keys_on_press(held: HeldKeys, last: EdgeMemory)
    ensures
        keys_from(held, last).f_pressed <==> (held.f && !last.f),
        keys_from(held, last).r_pressed <==> (held.r && !last.r),
        keys_from(held, last).e_pressed <==> (held.e && !last.e),
{
}

/// Mouse movement turns the camera only in a running game with the
/// cursor captured.
pub fn mouse_look_enabled(started: bool, cursor_locked: bool) -> (r: bool)
    ensures
        r == (started && cursor_locked),
{
    started && cursor_locked
}

/// What to do with the cursor this frame.
pub struct CursorUpdate {
    /// Show and free the cursor.
    pub release: bool,
    /// Hide and capture the cursor (after any release).
    pub grab: bool,
    /// Whether the cursor is captured afterwards.
    pub locked: bool,
}

/// Escape frees the cursor; a click captures it again in a running game.
pub fn manage_cursor_lock(locked: bool, escape_pressed: bool, clicked: bool, started: bool) -> (u: CursorUpdate)
    ensures
        u.release == escape_pressed,
        u.grab == (started && clicked && !(locked && !escape_pressed)),
        u.locked == (u.grab || (locked && !escape_pressed)),
{
    let mut now_locked = locked;
    if escape_pressed {
        now_locked = false;
    }
    let grab = started && clicked && !now_locked;
    if grab {
        now_locked = true;
    }
    CursorUpdate { release: escape_pressed, grab, locked: now_locked }
}

} // verus!
