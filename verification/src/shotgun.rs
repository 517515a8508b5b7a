//! The shared weapon: an ordered magazine of charges consumed from its back
//! end, and a one-shot sawed-off damage modifier.

use vstd::prelude::*;

use crate::bullet::Bullet;
use crate::bullet::damage_for;
use crate::bullet::lives_after_discharge;
use crate::bullet::lives_after_hit;
use crate::bullet::magazine_after_fire;
use crate::bullet::next_to_fire;
use crate::player::Player;

verus! {

/// A discharge was attempted with no charges remaining; the caller should
/// check `remaining_count` first.
#[derive(Clone, Copy, PartialEq, Eq, Structural, Debug)]
pub enum DischargeError {
    EmptyMagazine,
}

/// What a successful discharge did: which charge fired and how much life it
/// took from the target (0 for a `Blank`).
#[derive(Clone, Copy, PartialEq, Eq, Structural, Debug)]
pub struct DischargeOutcome {
    pub charge_fired: Bullet,
    pub damage_applied: u8,
}

/// The weapon: its loaded magazine (fired from the back end) and the
/// sawed-off modifier, which any discharge consumes.
#[derive(Debug)]
pub struct Shotgun {
    pub magazine: Vec<Bullet>,
    pub sawed: bool,
}

impl Default for Shotgun {
    /// An empty, unmodified weapon.
    fn default() -> (s: Shotgun)
        ensures
            s.magazine@ == Seq::<Bullet>::empty(),
            s.sawed == false,
    {
        Shotgun { magazine: Vec::new(), sawed: false }
    }
}

/// Relies on rand::seq::SliceRandom::shuffle, driven by rand::thread_rng:
/// an in-place Fisher-Yates permutation of the slice, so the multiset of
/// elements (and with it the length) is unchanged.
#[verifier::external_body]
fn shuffle_bullets(v: &mut Vec<Bullet>)
    ensures
        final(v)@.to_multiset() == old(v)@.to_multiset(),
        final(v)@.len() == old(v)@.len(),
{
    let mut rng = rand::thread_rng();
    rand::seq::SliceRandom::shuffle(v.as_mut_slice(), &mut rng);
}

/// Relies on rand::seq::SliceRandom::shuffle, driven by a
/// rand::rngs::StdRng seeded with rand::SeedableRng::seed_from_u64: an
/// in-place Fisher-Yates permutation of the slice, so the multiset of
/// elements (and with it the length) is unchanged. A fixed seed makes the
/// permutation reproducible within one build of this library.
#[verifier::external_body]
fn shuffle_bullets_seeded(v: &mut Vec<Bullet>, seed: u64)
    ensures
        final(v)@.to_multiset() == old(v)@.to_multiset(),
        final(v)@.len() == old(v)@.len(),
{
    let mut rng = <rand::rngs::StdRng as rand::SeedableRng>::seed_from_u64(seed);
    rand::seq::SliceRandom::shuffle(v.as_mut_slice(), &mut rng);
}

impl Shotgun {
    /// Fire the next charge at `player`.
    ///
    /// Fails with `EmptyMagazine`, touching nothing, when no charge remains.
    /// Otherwise the back-end charge leaves the magazine; a `Live` charge
    /// takes 1 life (2 when sawed), flooring at zero, a `Blank` takes none;
    /// and the sawed-off modifier is consumed either way.
    pub fn pull_on(&mut self, player: &mut Player) -> (r: Result<
        DischargeOutcome,
        DischargeError,
    >)
        ensures
            old(self).magazine@.len() == 0 ==> r == Err::<DischargeOutcome, DischargeError>(
                DischargeError::EmptyMagazine,
            ) && *final(self) == *old(self) && *final(player) == *old(player),
            old(self).magazine@.len() > 0 ==> (r matches Ok(out)
                && out.charge_fired == next_to_fire(old(self).magazine@)
                && out.damage_applied == (if next_to_fire(old(self).magazine@) is Live {
                    damage_for(old(self).sawed)
                } else {
                    0u8
                })
                && final(self).magazine@ == magazine_after_fire(old(self).magazine@)
                && final(self).magazine@.len() == old(self).magazine@.len() - 1
                && final(self).sawed == false
                && final(player).lives == lives_after_discharge(
                    old(player).lives,
                    next_to_fire(old(self).magazine@),
                    old(self).sawed,
                )
                && final(player).name == old(player).name
                && final(player).cuffed == old(player).cuffed
                && final(player).inventory == old(player).inventory),
    {
        if self.magazine.len() == 0 {
            return Err(DischargeError::EmptyMagazine);
        }
        let shell = self.magazine.pop().unwrap();
        let applied: u8 = match shell {
            Bullet::Live => {
                let d: u8 = if self.sawed {
                    2
                } else {
                    1
                };
                self.damage(player);
                d
            },
            Bullet::Blank => 0,
        };
        self.sawed = false;
        Ok(DischargeOutcome { charge_fired: shell, damage_applied: applied })
    }

    /// Apply this weapon's damage to `player`: 2 lives when sawed, else 1,
    /// with saturating subtraction so the count floors at zero.
    pub fn damage(&self, player: &mut Player)
        ensures
            final(player).lives == lives_after_hit(old(player).lives, self.sawed),
            final(player).name == old(player).name,
            final(player).cuffed == old(player).cuffed,
            final(player).inventory == old(player).inventory,
    {
        let d: u8 = if self.sawed {
            2
        } else {
            1
        };
        player.lives = player.lives.saturating_sub(d);
    }

    /// Replace the magazine with a fresh load; the sawed-off modifier is
    /// untouched. Call `randomize_bullets` before the first discharge of the
    /// new load.
    pub fn load(&mut self, magazine: Vec<Bullet>)
        ensures
            final(self).magazine == magazine,
            final(self).sawed == old(self).sawed,
    {
        self.magazine = magazine;
    }

    /// Shuffle the magazine with the ambient random source: afterwards it
    /// holds the same charges, in some uniformly random order.
    pub fn randomize_bullets(&mut self)
        ensures
            final(self).magazine@.to_multiset() == old(self).magazine@.to_multiset(),
            final(self).magazine@.len() == old(self).magazine@.len(),
            final(self).sawed == old(self).sawed,
    {
        shuffle_bullets(&mut self.magazine);
    }

    /// Shuffle the magazine with an injected seed, so a test can reproduce
    /// the order: afterwards it holds the same charges, in some order.
    pub fn randomize_bullets_seeded(&mut self, seed: u64)
        ensures
            final(self).magazine@.to_multiset() == old(self).magazine@.to_multiset(),
            final(self).magazine@.len() == old(self).magazine@.len(),
            final(self).sawed == old(self).sawed,
    {
        shuffle_bullets_seeded(&mut self.magazine, seed);
    }

    /// How many charges remain in the magazine.
    pub fn remaining_count(&self) -> (r: usize)
        ensures
            r == self.magazine@.len(),
    {
        self.magazine.len()
    }

    /// Whether the sawed-off modifier is set for the next discharge.
    pub fn is_sawed(&self) -> (r: bool)
        ensures
            r == self.sawed,
    {
        self.sawed
    }
}

} // verus!
