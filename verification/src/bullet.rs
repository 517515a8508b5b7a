//! Ammunition and item kinds, and the mathematical model of a discharge:
//! which charge fires next, what is left in the magazine afterwards, and
//! how a hit changes a life count.

use vstd::prelude::*;

verus! {

/// One unit of ammunition: a `Live` charge causes damage, a `Blank` is
/// harmless.
#[derive(Clone, Copy, PartialEq, Eq, Structural, Debug)]
pub enum Bullet {
    Blank,
    Live,
}

/// The single-use consumable item kinds a player may hold.
#[derive(Clone, Copy, PartialEq, Eq, Structural, Debug)]
pub enum Item {
    Cigarette,
    Saw,
    Beer,
    Magnifier,
    Handcuffs,
}

/// Damage dealt by a `Live` charge: 2 when the sawed-off modifier is set,
/// 1 otherwise.
pub open spec fn damage_for(sawed: bool) -> u8 {
    if sawed {
        2
    } else {
        1
    }
}

/// A hit subtracts the damage from the life count, flooring at zero.
pub open spec fn lives_after_hit(lives: u8, sawed: bool) -> u8 {
    if lives >= damage_for(sawed) {
        (lives - damage_for(sawed)) as u8
    } else {
        0
    }
}

/// Life count after a discharge: a `Live` charge hits, a `Blank` leaves the
/// count unchanged.
pub open spec fn lives_after_discharge(lives: u8, fired: Bullet, sawed: bool) -> u8 {
    match fired {
        Bullet::Live => lives_after_hit(lives, sawed),
        Bullet::Blank => lives,
    }
}

/// The next charge to fire: the magazine is consumed from its back end.
pub open spec fn next_to_fire(magazine: Seq<Bullet>) -> Bullet {
    magazine.last()
}

/// The magazine after its next-to-fire charge has been removed.
pub open spec fn magazine_after_fire(magazine: Seq<Bullet>) -> Seq<Bullet> {
    magazine.drop_last()
}

/// What an inspection of the magazine shows: the next charge to fire, or
/// nothing when the magazine is empty.
pub open spec fn revealed_charge(magazine: Seq<Bullet>) -> Option<Bullet> {
    if magazine.len() > 0 {
        Some(next_to_fire(magazine))
    } else {
        None
    }
}

/// The magazine after an ejection: the next-to-fire charge is removed; an
/// empty magazine stays empty.
pub open spec fn ejected_magazine(magazine: Seq<Bullet>) -> Seq<Bullet> {
    if magazine.len() > 0 {
        magazine_after_fire(magazine)
    } else {
        magazine
    }
}

} // verus!
