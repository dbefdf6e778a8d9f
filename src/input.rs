//! The keypad latch: which of the sixteen keys are down, and the state
//! machine behind the blocking wait-for-key instruction.
//!
//! A wait resolves only after the captured key is released: the first poll
//! arms the wait, the first key pressed while armed is captured, and the
//! poll after that key has gone up again returns it.

use vstd::prelude::*;

use crate::constants::KEY_COUNT;

verus! {

/// Where a wait for a key stands.
#[derive(Clone, Copy, Debug, PartialEq, Eq, Structural)]
pub enum WaitState {
    /// No wait pending.
    Idle,
    /// Armed; no key has been pressed since.
    AwaitingPress,
    /// `key` was pressed while armed; the wait resolves once it is released.
    AwaitingRelease { key: u8 },
}

/// What the latch holds.
pub struct InputModel {
    /// `pressed[k]` tells whether key `k` is down.
    pub pressed: Seq<bool>,
    pub wait: WaitState,
}

/// The wait state after key `key` is pressed.
pub open spec fn wait_after_press(w: WaitState, key: u8) -> WaitState {
    if w == WaitState::AwaitingPress {
        WaitState::AwaitingRelease { key }
    } else {
        w
    }
}

/// One poll of the wait: the new wait state and the resolved key, if any.
pub open spec fn poll_wait(m: InputModel) -> (WaitState, Option<u8>) {
    match m.wait {
        WaitState::Idle => (WaitState::AwaitingPress, None),
        WaitState::AwaitingPress => (WaitState::AwaitingPress, None),
        WaitState::AwaitingRelease { key } => if m.pressed[key as int] {
            (m.wait, None)
        } else {
            (WaitState::Idle, Some(key))
        },
    }
}

pub struct InputState {
    pressed_keys: [bool; KEY_COUNT],
    wait: WaitState,
}

impl View for InputState {
    type V = InputModel;

    closed spec fn view(&self) -> InputModel {
        InputModel { pressed: self.pressed_keys@, wait: self.wait }
    }
}

impl InputState {
    /// One flag per key, and a captured key is a key of the pad.
    pub open spec fn wf(&self) -> bool {
        &&& self@.pressed.len() == KEY_COUNT
        &&& self@.wait matches WaitState::AwaitingRelease { key } ==> key < KEY_COUNT
    }

    /// No key down, no wait pending.
    pub fn new() -> (r: Self)
        ensures
            r.wf(),
            r@.pressed == Seq::new(KEY_COUNT as nat, |_k: int| false),
            r@.wait == WaitState::Idle,
    {
        let r = Self { pressed_keys: [false; KEY_COUNT], wait: WaitState::Idle };
        assert(r@.pressed =~= Seq::new(KEY_COUNT as nat, |_k: int| false));
        r
    }

    /// Key `key` went down. Codes outside the pad (16 and up) are ignored.
    /// A key pressed while a wait is armed is captured.
    pub fn handle_key_press(&mut self, key: u8)
        requires
            old(self).wf(),
        ensures
            final(self).wf(),
            (key as usize) < KEY_COUNT ==> final(self)@ == (InputModel {
                pressed: old(self)@.pressed.update(key as int, true),
                wait: wait_after_press(old(self)@.wait, key),
            }),
            (key as usize) >= KEY_COUNT ==> final(self)@ == old(self)@,
    {
        if (key as usize) < KEY_COUNT {
            self.pressed_keys[key as usize] = true;
            if self.wait == WaitState::AwaitingPress {
                self.wait = WaitState::AwaitingRelease { key };
            }
        }
    }

    /// Key `key` went up. Codes outside the pad are ignored.
    pub fn handle_key_release(&mut self, key: u8)
        requires
            old(self).wf(),
        ensures
            final(self).wf(),
            (key as usize) < KEY_COUNT ==> final(self)@ == (InputModel {
                pressed: old(self)@.pressed.update(key as int, false),
                ..old(self)@
            }),
            (key as usize) >= KEY_COUNT ==> final(self)@ == old(self)@,
    {
        if (key as usize) < KEY_COUNT {
            self.pressed_keys[key as usize] = false;
        }
    }

    /// Whether key `key` is down; never for codes outside the pad.
    pub fn is_key_pressed(&self, key: u8) -> (r: bool)
        requires
            self.wf(),
        ensures
            r == ((key as usize) < KEY_COUNT && self@.pressed[key as int]),
    {
        (key as usize) < KEY_COUNT && self.pressed_keys[key as usize]
    }

    /// Advances the wait once: arms it when idle, and returns the captured
    /// key once that key has been released. The set of keys down is left
    /// as it is.
    pub fn wait_for_key(&mut self) -> (r: Option<u8>)
        requires
            old(self).wf(),
        ensures
            final(self).wf(),
            final(self)@.pressed == old(self)@.pressed,
            (final(self)@.wait, r) == poll_wait(old(self)@),
            r matches Some(k) ==> k < KEY_COUNT,
    {
        match self.wait {
            WaitState::Idle => {
                self.wait = WaitState::AwaitingPress;
                None
            },
            WaitState::AwaitingPress => None,
            WaitState::AwaitingRelease { key } => {
                if self.pressed_keys[key as usize] {
                    None
                } else {
                    self.wait = WaitState::Idle;
                    Some(key)
                }
            },
        }
    }

    /// Whether a wait is armed or has captured a key.
    pub fn is_waiting_for_key(&self) -> (r: bool)
        ensures
            r == (self@.wait != WaitState::Idle),
    {
        self.wait != WaitState::Idle
    }
}

} // verus!
