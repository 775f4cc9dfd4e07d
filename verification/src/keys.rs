//! The keys that steer a tank, and what a set of pressed keys asks for.

use vstd::prelude::*;

verus! {

/// A key that the tank listens to. Each intent has a letter key and an arrow
/// key.
#[derive(Clone, Copy, Debug, PartialEq, Eq, Hash, Structural)]
pub enum Key {
    W,
    Up,
    S,
    Down,
    A,
    Left,
    D,
    Right,
}

/// The keys ask the tank to drive forward.
pub open spec fn forward_pressed(keys: Seq<Key>) -> bool {
    keys.contains(Key::W) || keys.contains(Key::Up)
}

/// The keys ask the tank to drive backwards.
pub open spec fn back_pressed(keys: Seq<Key>) -> bool {
    keys.contains(Key::S) || keys.contains(Key::Down)
}

/// The keys ask the hull to turn right.
pub open spec fn right_pressed(keys: Seq<Key>) -> bool {
    keys.contains(Key::D) || keys.contains(Key::Right)
}

/// The keys ask the hull to turn left.
pub open spec fn left_pressed(keys: Seq<Key>) -> bool {
    keys.contains(Key::A) || keys.contains(Key::Left)
}

/// Whether `key` is among the pressed keys. The keys come in any order and a
/// key may occur more than once.
pub fn is_pressed(keys: &[Key], key: Key) -> (found: bool)
    ensures
        found == keys@.contains(key),
{
    let mut i: usize = 0;
    while i < keys.len()
        invariant
            i <= keys.len(),
            forall|j: int| 0 <= j < i ==> keys@[j] != key,
        decreases keys.len() - i,
    {
        if keys[i] == key {
            return true;
        }
        i += 1;
    }
    false
}

} // verus!
