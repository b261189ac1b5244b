//! The character's inventory: containment only.  Items are advanced
//! through their own methods; the inventory never mutates them.

use vstd::prelude::*;

verus! {

use crate::items::armor::Armor;
use crate::items::artifact::Artifact;
use crate::items::material::Material;

/// What a character carries: items and the two currencies.
pub struct Inventory {
    pub armor: Vec<Armor>,
    pub artifacts: Vec<Artifact>,
    pub materials: Vec<Material>,
    pub base_currency: u64,
    pub premium_currency: u64,
}

impl Inventory {
    /// No items and no money.
    pub open spec fn is_empty(self) -> bool {
        &&& self.armor@.len() == 0
        &&& self.artifacts@.len() == 0
        &&& self.materials@.len() == 0
        &&& self.base_currency == 0
        &&& self.premium_currency == 0
    }

    /// A fresh, empty inventory.
    pub fn new() -> (r: Inventory)
        ensures
            r.is_empty(),
    {
        Inventory {
            armor: Vec::new(),
            artifacts: Vec::new(),
            materials: Vec::new(),
            base_currency: 0,
            premium_currency: 0,
        }
    }
}

impl Default for Inventory {
    /// A fresh, empty inventory.
    fn default() -> (r: Inventory)
        ensures
            r.is_empty(),
    {
        Inventory::new()
    }
}

} // verus!
