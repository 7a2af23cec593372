use vstd::prelude::*;

verus! {

/// The keys the game reacts to; every other key arrives as `Other`.
#[derive(Clone, Copy, Debug, PartialEq, Eq, Structural)]
pub enum KeyCode {
    W,
    S,
    D,
    Up,
    Down,
    Right,
    Space,
    Return,
    Other,
}

/// Whether `key` is among the keys held down this frame.
pub fn is_held(held: &Vec<KeyCode>, key: KeyCode) -> (r: bool)
    ensures
        r == held@.contains(key),
{
    let mut i: usize = 0;
    while i < held.len()
        invariant
            0 <= i <= held@.len(),
            forall|j: int| 0 <= j < i ==> held@[j] != key,
        decreases held@.len() - i,
    {
        if held[i] == key {
            return true;
        }
        i = i + 1;
    }
    false
}

} // verus!
