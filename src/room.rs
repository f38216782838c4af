//! The four rooms and how the player turns between them.
use vstd::prelude::*;

verus! {

/// Where an item stands. `Nowhere` holds the close-up views and puzzle screens,
/// which are never shown as part of a room.
#[derive(Clone, Copy, Debug, PartialEq, Eq, Structural)]
pub enum Room {
    Nowhere,
    North,
    South,
    East,
    West,
}

/// The room that the left arrow leads to.
pub open spec fn left_of(r: Room) -> Room {
    match r {
        Room::North => Room::East,
        Room::East => Room::South,
        Room::South => Room::West,
        Room::West => Room::North,
        Room::Nowhere => Room::Nowhere,
    }
}

/// The room that the right arrow leads to.
pub open spec fn right_of(r: Room) -> Room {
    match r {
        Room::North => Room::West,
        Room::West => Room::South,
        Room::South => Room::East,
        Room::East => Room::North,
        Room::Nowhere => Room::Nowhere,
    }
}

pub fn rotate_left(current: Room) -> (r: Room)
    ensures
        r == left_of(current),
{
    match current {
        Room::North => Room::East,
        Room::East => Room::South,
        Room::South => Room::West,
        Room::West => Room::North,
        Room::Nowhere => Room::Nowhere,
    }
}

pub fn rotate_right(current: Room) -> (r: Room)
    ensures
        r == right_of(current),
{
    match current {
        Room::North => Room::West,
        Room::West => Room::South,
        Room::South => Room::East,
        Room::East => Room::North,
        Room::Nowhere => Room::Nowhere,
    }
}

/// Turning left and then right, or right and then left, comes back to the
/// same room.
pub proof fn lemma_turns_cancel(r: Room)
    ensures
        right_of(left_of(r)) == r,
        left_of(right_of(r)) == r,
{
}

/// Four turns in the same direction come back to the same room, and no
/// fewer do, save for `Room::Nowhere`, which no turn leaves.
pub proof fn lemma_four_turns(r: Room)
    ensures
        left_of(left_of(left_of(left_of(r)))) == r,
        right_of(right_of(right_of(right_of(r)))) == r,
        r != Room::Nowhere ==> left_of(r) != r && left_of(left_of(r)) != r
            && left_of(left_of(left_of(r))) != r,
        r != Room::Nowhere ==> left_of(r) != Room::Nowhere && right_of(r) != Room::Nowhere,
        left_of(Room::Nowhere) == Room::Nowhere && right_of(Room::Nowhere) == Room::Nowhere,
{
}

} // verus!
