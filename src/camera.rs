use vstd::prelude::*;
use crate::player::Position;

verus! {

/// Keeps the camera on the player; without a player it stays where it is.
/// Returns whether the camera moved.
pub fn follow_player(camera: &mut Position, player: Option<Position>) -> (moved: bool)
    ensures
        match player {
            Some(p) => *final(camera) == p && moved == (p != *old(camera)),
            None => *final(camera) == *old(camera) && !moved,
        },
{
    match player {
        Some(p) => {
            if *camera == p {
                false
            } else {
                *camera = p;
                true
            }
        },
        None => false,
    }
}

} // verus!
