//! A per-frame snapshot of the keyboard: which of the recognized keys were
//! just pressed this frame (edge events) and which are held down. The host
//! samples the device once per frame and hands this snapshot in; keys the
//! scene does not recognize are simply absent.

use vstd::prelude::*;

verus! {

/// The keys the scene reacts to.
#[derive(Clone, Copy, Debug, PartialEq, Eq, Structural)]
pub enum Key {
    Key1,
    Key2,
    Key3,
    Key4,
    Key5,
    A,
    X,
    Z,
    Y,
    H,
    P,
}

/// One frame's input: the just-pressed edge events and the held keys.
#[derive(Clone, Debug)]
pub struct InputState {
    pub just_pressed_keys: Vec<Key>,
    pub held_keys: Vec<Key>,
}

/// Whether `keys` holds `k`.
fn contains_key(keys: &Vec<Key>, k: Key) -> (b: bool)
    ensures
        b == keys@.contains(k),
{
    let mut i: usize = 0;
    while i < keys.len()
        invariant
            i <= keys.len(),
            forall|j: int| 0 <= j < i ==> keys@[j] != k,
        decreases keys.len() - i,
    {
        if keys[i] == k {
            return true;
        }
        i += 1;
    }
    false
}

impl InputState {
    /// The key saw its press edge this frame.
    pub open spec fn spec_just_pressed(self, k: Key) -> bool {
        self.just_pressed_keys@.contains(k)
    }

    /// The key is held down this frame.
    pub open spec fn spec_pressed(self, k: Key) -> bool {
        self.held_keys@.contains(k)
    }

    /// Whether `k` was just pressed this frame.
    pub fn just_pressed(&self, k: Key) -> (b: bool)
        ensures
            b == self.spec_just_pressed(k),
    {
        contains_key(&self.just_pressed_keys, k)
    }

    /// Whether `k` is held down this frame.
    pub fn pressed(&self, k: Key) -> (b: bool)
        ensures
            b == self.spec_pressed(k),
    {
        contains_key(&self.held_keys, k)
    }
}

} // verus!
