//! The round driver's decisions for a two-player round: when the round is
//! over, who won, and whose turn comes next once restraint is honoured.
//! The I/O shell performs the chosen actions; these functions only decide.

use vstd::prelude::*;

use crate::player::Player;
use crate::shotgun::Shotgun;

verus! {

/// The round ends when the magazine is spent or either player is
/// eliminated.
pub fn is_round_over(gun: &Shotgun, first: &Player, second: &Player) -> (r: bool)
    ensures
        r == (gun.magazine@.len() == 0 || first.lives == 0 || second.lives == 0),
{
    gun.remaining_count() == 0 || first.is_eliminated() || second.is_eliminated()
}

/// The index (0 for `first`, 1 for `second`) of the sole surviving player,
/// or `None` while both are standing or after both have fallen.
pub fn round_winner(first: &Player, second: &Player) -> (r: Option<usize>)
    ensures
        r == Some(0usize) <==> first.lives > 0 && second.lives == 0,
        r == Some(1usize) <==> second.lives > 0 && first.lives == 0,
        r is None <==> ((first.lives > 0) == (second.lives > 0)),
{
    if first.lives > 0 && second.lives == 0 {
        Some(0)
    } else if second.lives > 0 && first.lives == 0 {
        Some(1)
    } else {
        None
    }
}

/// After player `current` (0 or 1) has acted, pick who acts next: the other
/// player, unless that player is restrained, in which case the restraint is
/// consumed and the turn stays with `current`.
pub fn next_turn(current: usize, first: &mut Player, second: &mut Player) -> (r: usize)
    requires
        current == 0 || current == 1,
    ensures
        current == 0 ==> *final(first) == *old(first),
        current == 1 ==> *final(second) == *old(second),
        current == 0 && old(second).cuffed ==> r == 0 && final(second).cuffed == false && final(second).name == old(second).name && final(second).lives == old(second).lives && final(second).inventory == old(second).inventory,
        current == 0 && !old(second).cuffed ==> r == 1 && *final(second) == *old(second),
        current == 1 && old(first).cuffed ==> r == 1 && final(first).cuffed == false && final(first).name == old(first).name && final(first).lives == old(first).lives && final(first).inventory == old(first).inventory,
        current == 1 && !old(first).cuffed ==> r == 0 && *final(first) == *old(first),
{
    if current == 0 {
        if second.is_restrained() {
            second.clear_restraint();
            0
        } else {
            1
        }
    } else {
        if first.is_restrained() {
            first.clear_restraint();
            1
        } else {
            0
        }
    }
}

} // verus!
