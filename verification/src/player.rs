//! A player: identity, remaining lives, the restraint flag, and an
//! inventory of single-use items, with the effect of each item kind.

use vstd::prelude::*;
use vstd::string::StringExecFns;

use crate::bullet::Bullet;
use crate::bullet::Item;
use crate::bullet::ejected_magazine;
use crate::bullet::revealed_charge;
use crate::shotgun::Shotgun;

verus! {

/// An item effect could not be applied: the acting player does not hold the
/// item, or a targeted item was aimed wrongly.
#[derive(Clone, Copy, PartialEq, Eq, Structural, Debug)]
pub enum ItemError {
    ItemNotHeld,
    InvalidTarget,
}

/// The observable result of a successfully applied item: nothing beyond the
/// state change, a revealed charge, or an ejected charge (`None` inside
/// when the magazine was already empty).
#[derive(Clone, Copy, PartialEq, Eq, Structural, Debug)]
pub enum ItemOutcome {
    Applied,
    Revealed(Option<Bullet>),
    Ejected(Option<Bullet>),
}

/// A player: name, remaining lives (floored at zero by every discharge),
/// the skip-next-turn restraint flag, and the held items.
#[derive(Debug)]
pub struct Player {
    pub name: String,
    pub lives: u8,
    pub cuffed: bool,
    pub inventory: Vec<Item>,
}

/// `after` is `before` with its first occurrence of `item` removed.
pub open spec fn removed_first(before: Seq<Item>, after: Seq<Item>, item: Item) -> bool {
    exists|i: int|
        #![auto]
        0 <= i < before.len() && before[i] == item && (forall|j: int|
            0 <= j < i ==> before[j] != item) && after == before.remove(i)
}

/// The state change and outcome of successfully applying an untargeted item
/// (`Handcuffs`, which needs a target, never satisfies this): the item
/// leaves the inventory and its effect lands on the weapon or the player.
pub open spec fn untargeted_effect(
    p0: Player,
    g0: Shotgun,
    p1: Player,
    g1: Shotgun,
    kind: Item,
    out: ItemOutcome,
) -> bool {
    &&& removed_first(p0.inventory@, p1.inventory@, kind)
    &&& p1.name == p0.name
    &&& p1.cuffed == p0.cuffed
    &&& match kind {
        Item::Saw => out == ItemOutcome::Applied && p1.lives == p0.lives && g1.sawed == true
            && g1.magazine == g0.magazine,
        Item::Magnifier => out == ItemOutcome::Revealed(revealed_charge(g0.magazine@))
            && p1.lives == p0.lives && g1 == g0,
        Item::Beer => out == ItemOutcome::Ejected(revealed_charge(g0.magazine@)) && p1.lives
            == p0.lives && g1.sawed == g0.sawed && g1.magazine@ == ejected_magazine(g0.magazine@),
        Item::Cigarette => out == ItemOutcome::Applied && p1.lives == p0.lives + 1 && g1 == g0,
        Item::Handcuffs => false,
    }
}

/// The index of the first occurrence of `item` in `inv`, if any.
fn position_of(inv: &Vec<Item>, item: Item) -> (r: Option<usize>)
    ensures
        match r {
            Some(i) => i < inv@.len() && inv@[i as int] == item && (forall|j: int|
                0 <= j < i ==> inv@[j] != item),
            None => !inv@.contains(item),
        },
{
    let mut i: usize = 0;
    while i < inv.len()
        invariant
            i <= inv@.len(),
            forall|j: int| 0 <= j < i ==> inv@[j] != item,
        decreases inv@.len() - i,
    {
        if inv[i] == item {
            return Some(i);
        }
        i += 1;
    }
    None
}

/// Remove the first occurrence of `item` from `inv`; reports whether one
/// was there to remove.
fn remove_first_item(inv: &mut Vec<Item>, item: Item) -> (found: bool)
    ensures
        found <==> old(inv)@.contains(item),
        found ==> removed_first(old(inv)@, final(inv)@, item),
        !found ==> *final(inv) == *old(inv),
{
    match position_of(inv, item) {
        Some(i) => {
            proof {
                assert(old(inv)@.contains(item)) by {
                    assert(old(inv)@[i as int] == item);
                }
            }
            inv.remove(i);
            proof {
                // i is the first index holding item, which witnesses removed_first.
                assert(old(inv)@[i as int] == item);
                assert(forall|j: int| 0 <= j < i as int ==> old(inv)@[j] != item);
                assert(inv@ == old(inv)@.remove(i as int));
            }
            true
        },
        None => false,
    }
}

impl Default for Player {
    /// A fresh player named "player" with 2 lives, unrestrained, holding
    /// nothing.
    fn default() -> (p: Player)
        ensures
            p.name@ == "player"@,
            p.lives == 2,
            p.cuffed == false,
            p.inventory@ == Seq::<Item>::empty(),
    {
        Player { name: String::from_str("player"), lives: 2, cuffed: false, inventory: Vec::new() }
    }
}

impl Player {
    /// A fresh player with the given name and starting lives, unrestrained,
    /// holding nothing.
    pub fn new(name: String, starting_lives: u8) -> (p: Player)
        ensures
            p.name == name,
            p.lives == starting_lives,
            p.cuffed == false,
            p.inventory@ == Seq::<Item>::empty(),
    {
        Player { name, lives: starting_lives, cuffed: false, inventory: Vec::new() }
    }

    /// Whether the player holds at least one item of this kind.
    pub fn has_item(&self, item: Item) -> (r: bool)
        ensures
            r == self.inventory@.contains(item),
    {
        match position_of(&self.inventory, item) {
            Some(i) => {
                proof {
                    assert(self.inventory@.contains(item)) by {
                        assert(self.inventory@[i as int] == item);
                    }
                }
                true
            },
            None => false,
        }
    }

    /// Spend a `Saw` to set the weapon's sawed-off modifier; fails, touching
    /// nothing, when none is held.
    pub fn try_saw(&mut self, gun: &mut Shotgun) -> (r: Option<()>)
        ensures
            r is Some <==> old(self).inventory@.contains(Item::Saw),
            r is Some ==> removed_first(old(self).inventory@, final(self).inventory@, Item::Saw)
                && final(self).name == old(self).name && final(self).lives == old(self).lives
                && final(self).cuffed == old(self).cuffed && final(gun).sawed == true && final(gun).magazine == old(gun).magazine,
            r is None ==> *final(self) == *old(self) && *final(gun) == *old(gun),
    {
        let found = remove_first_item(&mut self.inventory, Item::Saw);
        if found {
            gun.sawed = true;
            Some(())
        } else {
            None
        }
    }

    /// Spend a `Magnifier` to reveal, without consuming, the next charge to
    /// fire (`None` when the magazine is empty); fails, touching nothing,
    /// when none is held.
    pub fn try_magnifier(&mut self, gun: &Shotgun) -> (r: Option<Bullet>)
        ensures
            old(self).inventory@.contains(Item::Magnifier) ==> removed_first(
                old(self).inventory@,
                final(self).inventory@,
                Item::Magnifier,
            ) && final(self).name == old(self).name && final(self).lives == old(self).lives
                && final(self).cuffed == old(self).cuffed && r == revealed_charge(gun.magazine@),
            !old(self).inventory@.contains(Item::Magnifier) ==> r is None && *final(self) == *old(self),
    {
        let found = remove_first_item(&mut self.inventory, Item::Magnifier);
        if !found {
            return None;
        }
        if gun.magazine.len() == 0 {
            return None;
        }
        Some(gun.magazine[gun.magazine.len() - 1])
    }

    /// Spend a `Beer` to eject the next-to-fire charge without firing it;
    /// returns the ejected charge (`None` when the magazine was empty) and
    /// fails, touching nothing, when none is held.
    pub fn try_beer(&mut self, gun: &mut Shotgun) -> (r: Option<Bullet>)
        ensures
            old(self).inventory@.contains(Item::Beer) ==> removed_first(
                old(self).inventory@,
                final(self).inventory@,
                Item::Beer,
            ) && final(self).name == old(self).name && final(self).lives == old(self).lives
                && final(self).cuffed == old(self).cuffed && r == revealed_charge(
                old(gun).magazine@,
            ) && final(gun).sawed == old(gun).sawed && final(gun).magazine@ == ejected_magazine(
                old(gun).magazine@,
            ),
            !old(self).inventory@.contains(Item::Beer) ==> r is None && *final(self) == *old(self)
                && *final(gun) == *old(gun),
    {
        let found = remove_first_item(&mut self.inventory, Item::Beer);
        if !found {
            return None;
        }
        gun.magazine.pop()
    }

    /// Spend a `Handcuffs` to restrain `other`, so the driver skips their
    /// next turn; fails, touching nothing, when none is held.
    pub fn try_cuff(&mut self, other: &mut Player) -> (r: Option<()>)
        ensures
            r is Some <==> old(self).inventory@.contains(Item::Handcuffs),
            r is Some ==> removed_first(
                old(self).inventory@,
                final(self).inventory@,
                Item::Handcuffs,
            ) && final(self).name == old(self).name && final(self).lives == old(self).lives
                && final(self).cuffed == old(self).cuffed && final(other).cuffed == true && final(other).name == old(other).name && final(other).lives == old(other).lives && final(other).inventory == old(other).inventory,
            r is None ==> *final(self) == *old(self) && *final(other) == *old(other),
    {
        let found = remove_first_item(&mut self.inventory, Item::Handcuffs);
        if found {
            other.cuffed = true;
            Some(())
        } else {
            None
        }
    }

    /// Spend a `Cigarette` to regain one life (the item itself enforces no
    /// cap); fails, touching nothing, when none is held.
    pub fn try_cigarette(&mut self) -> (r: Option<()>)
        requires
            old(self).inventory@.contains(Item::Cigarette) ==> old(self).lives < 255,
        ensures
            r is Some <==> old(self).inventory@.contains(Item::Cigarette),
            r is Some ==> removed_first(
                old(self).inventory@,
                final(self).inventory@,
                Item::Cigarette,
            ) && final(self).lives == old(self).lives + 1 && final(self).name == old(self).name
                && final(self).cuffed == old(self).cuffed,
            r is None ==> *final(self) == *old(self),
    {
        let found = remove_first_item(&mut self.inventory, Item::Cigarette);
        if found {
            self.lives = self.lives + 1;
            Some(())
        } else {
            None
        }
    }

    /// Apply an untargeted item to the shared weapon or to the acting
    /// player. `Handcuffs` needs a target: it is refused here with
    /// `InvalidTarget` (use `apply_item_on`). A kind the player does not
    /// hold is refused with `ItemNotHeld`. A refusal touches nothing.
    pub fn apply_item(&mut self, kind: Item, gun: &mut Shotgun) -> (r: Result<
        ItemOutcome,
        ItemError,
    >)
        requires
            kind == Item::Cigarette && old(self).inventory@.contains(Item::Cigarette) ==> old(self).lives < 255,
        ensures
            r is Err ==> *final(self) == *old(self) && *final(gun) == *old(gun),
            kind == Item::Handcuffs ==> r == Err::<ItemOutcome, ItemError>(
                ItemError::InvalidTarget,
            ),
            kind != Item::Handcuffs && !old(self).inventory@.contains(kind) ==> r == Err::<
                ItemOutcome,
                ItemError,
            >(ItemError::ItemNotHeld),
            kind != Item::Handcuffs && old(self).inventory@.contains(kind) ==> (r matches Ok(out)
                && untargeted_effect(*old(self), *old(gun), *final(self), *final(gun), kind, out)),
    {
        match kind {
            Item::Saw => match self.try_saw(gun) {
                Some(_) => Ok(ItemOutcome::Applied),
                None => Err(ItemError::ItemNotHeld),
            },
            Item::Magnifier => {
                if self.has_item(Item::Magnifier) {
                    let b = self.try_magnifier(gun);
                    Ok(ItemOutcome::Revealed(b))
                } else {
                    Err(ItemError::ItemNotHeld)
                }
            },
            Item::Beer => {
                if self.has_item(Item::Beer) {
                    let b = self.try_beer(gun);
                    Ok(ItemOutcome::Ejected(b))
                } else {
                    Err(ItemError::ItemNotHeld)
                }
            },
            Item::Cigarette => match self.try_cigarette() {
                Some(_) => Ok(ItemOutcome::Applied),
                None => Err(ItemError::ItemNotHeld),
            },
            Item::Handcuffs => Err(ItemError::InvalidTarget),
        }
    }

    /// Apply an item with an explicit target. `Handcuffs` restrains the
    /// target, unless the target is already eliminated (`InvalidTarget`);
    /// every other kind ignores the target and acts as `apply_item`. A kind
    /// the player does not hold is refused with `ItemNotHeld`. A refusal
    /// touches nothing.
    pub fn apply_item_on(&mut self, kind: Item, gun: &mut Shotgun, target: &mut Player) -> (r:
        Result<ItemOutcome, ItemError>)
        requires
            kind == Item::Cigarette && old(self).inventory@.contains(Item::Cigarette) ==> old(self).lives < 255,
        ensures
            r is Err ==> *final(self) == *old(self) && *final(gun) == *old(gun) && *final(target)
                == *old(target),
            kind != Item::Handcuffs ==> *final(target) == *old(target),
            kind != Item::Handcuffs && !old(self).inventory@.contains(kind) ==> r == Err::<
                ItemOutcome,
                ItemError,
            >(ItemError::ItemNotHeld),
            kind != Item::Handcuffs && old(self).inventory@.contains(kind) ==> (r matches Ok(out)
                && untargeted_effect(*old(self), *old(gun), *final(self), *final(gun), kind, out)),
            kind == Item::Handcuffs && !old(self).inventory@.contains(kind) ==> r == Err::<
                ItemOutcome,
                ItemError,
            >(ItemError::ItemNotHeld),
            kind == Item::Handcuffs && old(self).inventory@.contains(kind) && old(target).lives
                == 0 ==> r == Err::<ItemOutcome, ItemError>(ItemError::InvalidTarget),
            kind == Item::Handcuffs && old(self).inventory@.contains(kind) && old(target).lives > 0
                ==> r == Ok::<ItemOutcome, ItemError>(ItemOutcome::Applied) && removed_first(
                old(self).inventory@,
                final(self).inventory@,
                Item::Handcuffs,
            ) && final(self).name == old(self).name && final(self).lives == old(self).lives
                && final(self).cuffed == old(self).cuffed && *final(gun) == *old(gun) && final(target).cuffed == true && final(target).name == old(target).name && final(target).lives
                == old(target).lives && final(target).inventory == old(target).inventory,
    {
        match kind {
            Item::Handcuffs => {
                if !self.has_item(Item::Handcuffs) {
                    return Err(ItemError::ItemNotHeld);
                }
                if target.lives == 0 {
                    return Err(ItemError::InvalidTarget);
                }
                remove_first_item(&mut self.inventory, Item::Handcuffs);
                target.cuffed = true;
                Ok(ItemOutcome::Applied)
            },
            _ => self.apply_item(kind, gun),
        }
    }

    /// The remaining life count.
    pub fn lives(&self) -> (r: u8)
        ensures
            r == self.lives,
    {
        self.lives
    }

    /// Whether the player is out of the round: no life left.
    pub fn is_eliminated(&self) -> (r: bool)
        ensures
            r == (self.lives == 0),
    {
        self.lives == 0
    }

    /// Whether the player's next turn is to be skipped.
    pub fn is_restrained(&self) -> (r: bool)
        ensures
            r == self.cuffed,
    {
        self.cuffed
    }

    /// Consume the restraint: the driver calls this when it skips the turn.
    pub fn clear_restraint(&mut self)
        ensures
            final(self).cuffed == false,
            final(self).name == old(self).name,
            final(self).lives == old(self).lives,
            final(self).inventory == old(self).inventory,
    {
        self.cuffed = false;
    }
}

} // verus!
