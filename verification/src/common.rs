use vstd::prelude::*;

verus! {

/// The direction keys the game reacts to.
#[derive(Clone, Copy, Debug, PartialEq, Eq, Structural)]
pub enum Keys {
    Up,
    Down,
    Left,
    Right,
}

} // verus!
