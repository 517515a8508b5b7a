//! The laws the engine obeys, stated over the spec functions that the
//! executable contracts use, and proved once and for all.

use vstd::prelude::*;

use crate::bullet::Bullet;
use crate::bullet::damage_for;
use crate::bullet::ejected_magazine;
use crate::bullet::lives_after_discharge;
use crate::bullet::magazine_after_fire;
use crate::bullet::next_to_fire;
use crate::bullet::revealed_charge;

verus! {

/// Ammunition accounting: firing or ejecting from a non-empty magazine
/// removes exactly one charge (an inspection removes none: see
/// `Player::try_magnifier`, which leaves the weapon untouched).
pub proof fn lemma_consumption_count(magazine: Seq<Bullet>)
    requires
        magazine.len() > 0,
    ensures
        magazine_after_fire(magazine).len() == magazine.len() - 1,
        ejected_magazine(magazine).len() == magazine.len() - 1,
{
}

/// Damage law: a `Live` discharge takes `damage_for` lives (1, or 2 when
/// sawed), flooring at zero, and a `Blank` discharge never changes life.
pub proof fn lemma_damage_law(lives: u8, sawed: bool)
    ensures
        lives_after_discharge(lives, Bullet::Live, sawed) == (if lives >= damage_for(sawed) {
            (lives - damage_for(sawed)) as u8
        } else {
            0u8
        }),
        lives_after_discharge(lives, Bullet::Blank, sawed) == lives,
{
}

/// End-consistency: the magnifier reveals exactly the charge that an
/// immediate discharge (with no intervening ejection) fires, and an
/// ejection removes exactly that charge — all three read the same end of
/// the magazine.
pub proof fn lemma_end_consistency(magazine: Seq<Bullet>)
    requires
        magazine.len() > 0,
    ensures
        revealed_charge(magazine) == Some(next_to_fire(magazine)),
        ejected_magazine(magazine) == magazine_after_fire(magazine),
{
}

/// Saw interaction: a sawed `Live` discharge deals 2 damage; the modifier
/// is consumed by the discharge, so a following `Live` discharge without a
/// fresh saw deals 1 — together they cost 3 lives, floored at zero.
pub proof fn lemma_saw_interaction(lives: u8)
    ensures
        damage_for(true) == 2,
        damage_for(false) == 1,
        lives_after_discharge(lives, Bullet::Live, true) == (if lives >= 2 {
            (lives - 2) as u8
        } else {
            0u8
        }),
        lives_after_discharge(lives_after_discharge(lives, Bullet::Live, true), Bullet::Live, false)
            == (if lives >= 3 {
            (lives - 3) as u8
        } else {
            0u8
        }),
{
}

/// Elimination floor: no discharge raises a life count or drives it below
/// zero, and an eliminated player stays eliminated.
pub proof fn lemma_elimination_floor(lives: u8, fired: Bullet, sawed: bool)
    ensures
        lives_after_discharge(lives, fired, sawed) >= 0,
        lives_after_discharge(lives, fired, sawed) <= lives,
        lives == 0 ==> lives_after_discharge(lives, fired, sawed) == 0,
{
}

} // verus!
