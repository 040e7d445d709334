//! The materials economy: drops, pickups, and the wallet.

use vstd::prelude::*;

verus! {

/// How much a material drop is worth.
pub const MATERIAL_VALUE: u32 = 1;

/// A material was collected into the wallet.
#[derive(Debug, Clone, Copy, PartialEq, Eq, Structural)]
pub struct MaterialPickedUp {
    pub amount: u32,
}

/// A dropped material lying on the field.
#[derive(Debug, Clone, Copy, PartialEq, Eq, Structural)]
pub struct Material {
    pub value: u32,
}

/// The Player's material wallet, the shop currency.
#[derive(Debug, Clone, Copy, PartialEq, Eq, Structural)]
pub struct Materials {
    pub count: u32,
}

/// Sum of the values of some materials.
pub open spec fn total_value(ms: Seq<Material>) -> int
    decreases ms.len(),
{
    if ms.len() == 0 {
        0
    } else {
        total_value(ms.drop_last()) + ms.last().value
    }
}

/// The material an enemy drops where it died.
pub fn drop_for_death() -> (m: Material)
    ensures
        m.value == MATERIAL_VALUE,
{
    Material { value: MATERIAL_VALUE }
}

impl Materials {
    /// An empty wallet.
    pub fn new() -> (w: Materials)
        ensures
            w.count == 0,
    {
        Materials { count: 0 }
    }

    /// A fresh Run starts with an empty wallet.
    pub fn reset(&mut self)
        ensures
            final(self).count == 0,
    {
        self.count = 0;
    }

    /// Collect one material into the wallet.
    pub fn pick_up(&mut self, material: Material) -> (event: MaterialPickedUp)
        requires
            old(self).count + material.value <= u32::MAX,
        ensures
            final(self).count == old(self).count + material.value,
            event.amount == material.value,
    {
        self.count = self.count + material.value;
        MaterialPickedUp { amount: material.value }
    }

    /// When a wave ends, every material still on the ground is collected:
    /// one pickup per material, in order.
    pub fn vacuum(&mut self, remaining: &Vec<Material>) -> (events: Vec<MaterialPickedUp>)
        requires
            old(self).count + total_value(remaining@) <= u32::MAX,
        ensures
            final(self).count == old(self).count + total_value(remaining@),
            events@.len() == remaining@.len(),
            forall|i: int| 0 <= i < events@.len() ==> (#[trigger] events@[i]).amount == remaining@[i].value,
    {
        let mut events: Vec<MaterialPickedUp> = Vec::new();
        let mut i: usize = 0;
        while i < remaining.len()
            invariant
                i <= remaining@.len(),
                self.count == old(self).count + total_value(remaining@.take(i as int)),
                old(self).count + total_value(remaining@) <= u32::MAX,
                events@.len() == i,
                forall|j: int| 0 <= j < i ==> (#[trigger] events@[j]).amount == remaining@[j].value,
            decreases remaining@.len() - i,
        {
            proof {
                assert(remaining@.take(i + 1).drop_last() =~= remaining@.take(i as int));
                lemma_total_prefix(remaining@, i as int + 1);
            }
            let event = self.pick_up(remaining[i]);
            events.push(event);
            i += 1;
        }
        proof {
            assert(remaining@.take(remaining@.len() as int) =~= remaining@);
        }
        events
    }
}

proof fn lemma_total_nonneg(ms: Seq<Material>)
    ensures
        total_value(ms) >= 0,
    decreases ms.len(),
{
    if ms.len() > 0 {
        lemma_total_nonneg(ms.drop_last());
    }
}

proof fn lemma_total_prefix(ms: Seq<Material>, n: int)
    requires
        0 <= n <= ms.len(),
    ensures
        total_value(ms.take(n)) <= total_value(ms),
    decreases ms.len(),
{
    if n < ms.len() {
        lemma_total_prefix(ms.drop_last(), n);
        assert(ms.drop_last().take(n) =~= ms.take(n));
    } else {
        assert(ms.take(n) =~= ms);
    }
}

} // verus!
