use vstd::prelude::*;

verus! {

/// Process every frame: a skip period of one never skips.
pub const FRAME_SKIP: u32 = 1;

/// Milliseconds to pause per loop while inactive (about sixty loops a second).
pub const SLEEP_MS: u32 = 16;

/// Milliseconds to pause per loop while active: none.
pub const ACTIVE_SLEEP_MS: u32 = 0;

/// Virtual-key code of the key that toggles the feature on and off (L).
pub const VK_TOGGLE: i32 = 0x4C;

/// Virtual-key code of the activation button (left mouse button).
pub const VK_ACTIVATE: i32 = 0x01;

/// Virtual-key code of the key that raises the speed (plus).
pub const VK_SPEED_UP: i32 = 0xBB;

/// Virtual-key code of the key that lowers the speed (minus).
pub const VK_SPEED_DOWN: i32 = 0xBD;

/// Virtual-key code of the key that toggles the rate display (F).
pub const VK_FPS_TOGGLE: i32 = 0x46;

/// Virtual-key code of the key that toggles the actuation loop (R).
pub const VK_RCS_TOGGLE: i32 = 0x52;

/// Whether an asynchronous key-state word reports the key as down: its most
/// significant bit is set, that is, the word read as signed is negative.
pub fn key_is_down(state: i16) -> (r: bool)
    ensures
        r == (state < 0),
{
    let bits: u16 = #[verifier::truncate] (state as u16);
    assert(bits == #[verifier::truncate] (state as u16) ==> (((bits & 0x8000u16) != 0u16) == (state < 0i16)))
        by (bit_vector);
    (bits & 0x8000u16) != 0
}

/// Counts frames so that only one in `FRAME_SKIP` is processed.
pub struct InputHandler {
    frame_skip_counter: u32,
}

impl InputHandler {
    pub closed spec fn counter(&self) -> nat {
        self.frame_skip_counter as nat
    }

    pub open spec fn wf(&self) -> bool {
        self.counter() < FRAME_SKIP
    }

    pub fn new() -> (r: Self)
        ensures
            r.wf(),
            r.counter() == 0,
    {
        InputHandler { frame_skip_counter: 0 }
    }

    /// Advances the counter modulo `FRAME_SKIP`; the frame is skipped
    /// unless the counter has wrapped back to zero.
    pub fn should_skip_frame(&mut self) -> (r: bool)
        requires
            old(self).wf(),
        ensures
            final(self).wf(),
            final(self).counter() == (old(self).counter() + 1) % (FRAME_SKIP as nat),
            r == (final(self).counter() != 0),
    {
        self.frame_skip_counter = (self.frame_skip_counter + 1) % FRAME_SKIP;
        self.frame_skip_counter != 0
    }
}

} // verus!
