use vstd::prelude::*;

verus! {

/// A playable world
pub trait World {
    /// The type of the position in the world
    type Position;

    /// The type of the movement the player can make
    type Movement;

    /// Where the player stands
    spec fn spec_position(&self) -> Self::Position;

    /// The player has fulfilled all goals of the world
    spec fn spec_is_finished(&self) -> bool;

    /// Where the player stands after making `movement`
    spec fn spec_moved(&self, movement: Self::Movement) -> Self::Position;

    /// Return the position of the player in the world
    fn get_position(&self) -> (r: Self::Position)
        ensures
            r == self.spec_position(),
    ;

    /// Returns whether the player fulfilled all goals of the world
    fn is_finished(&self) -> (r: bool)
        ensures
            r == self.spec_is_finished(),
    ;

    /// Move the position marker by the specified movement
    fn move_to(&mut self, movement: Self::Movement)
        ensures
            final(self).spec_position() == old(self).spec_moved(movement),
    ;
}

} // verus!
