//! Materials: consumable experience sources.  A material only exposes a
//! name and a non-negative amount of experience; a batch of them is summed
//! before being applied to an item.

use vstd::prelude::*;

verus! {

use crate::ident::new_id;

/// An experience source with a name.
pub struct Material {
    pub id: uuid::Uuid,
    pub name: String,
    pub xp: u64,
}

/// The exact sum of the experience of a batch of materials.
pub open spec fn xp_total(s: Seq<Material>) -> nat
    decreases s.len(),
{
    if s.len() == 0 {
        0
    } else {
        xp_total(s.drop_last()) + s.last().xp as nat
    }
}

/// The sum of a batch as one grant: the exact sum, or the largest
/// representable grant where the sum exceeds it.
pub open spec fn grant_of(s: Seq<Material>) -> nat {
    if xp_total(s) >= 0xFFFF_FFFF_FFFF_FFFF {
        0xFFFF_FFFF_FFFF_FFFF
    } else {
        xp_total(s)
    }
}

/// The summed experience of a batch, saturating at the largest grant.
pub fn total_xp(sources: &Vec<Material>) -> (r: u64)
    ensures
        r as nat == grant_of(sources@),
{
    let mut total: u64 = 0;
    let mut i: usize = 0;
    proof {
        assert(sources@.subrange(0, 0) =~= Seq::<Material>::empty());
    }
    while i < sources.len()
        invariant
            i <= sources@.len(),
            total as nat == grant_of(sources@.subrange(0, i as int)),
        decreases sources@.len() - i,
    {
        let x = sources[i].xp;
        proof {
            assert(sources@.subrange(0, i + 1).drop_last() =~= sources@.subrange(0, i as int));
            assert(sources@.subrange(0, i + 1).last() == sources@[i as int]);
        }
        if total > 0xFFFF_FFFF_FFFF_FFFFu64 - x {
            total = 0xFFFF_FFFF_FFFF_FFFFu64;
        } else {
            total = total + x;
        }
        i += 1;
    }
    proof {
        assert(sources@.subrange(0, sources@.len() as int) =~= sources@);
    }
    total
}

impl Material {
    /// A fresh material worth the given experience.
    pub fn new(name: &str, xp: u64) -> (m: Material)
        ensures
            m.name@ == name@,
            m.xp == xp,
    {
        Material { id: new_id(), name: name.to_owned(), xp }
    }

    /// The material's name.
    pub fn name(&self) -> (r: String)
        ensures
            r@ == self.name@,
    {
        self.name.clone()
    }

    /// The experience this material is worth.
    pub fn xp(&self) -> (r: u64)
        ensures
            r == self.xp,
    {
        self.xp
    }
}

} // verus!
