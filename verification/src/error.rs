//! Why a step of the game can be refused.

use vstd::prelude::*;

verus! {

/// The reasons for which a step is refused. A refused step changes nothing.
#[derive(Clone, Copy, Debug, PartialEq, Eq, Structural)]
pub enum GameError {
    /// A step that acts on the player found no player.
    NoPlayer,
    /// A step that acts on the player found more than one.
    MultiplePlayers,
    /// The step would take a coordinate out of its range.
    OutOfRange,
}

} // verus!
