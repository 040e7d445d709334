//! Orb bookkeeping for orbiting-orb weapons: each weapon slot asks for a
//! number of independent orbs, and every orb has a global ordinal (its
//! position when the slots' orbs are laid end to end) that sets its phase
//! around the ring and its spin direction.

use vstd::prelude::*;

use crate::damage::WeaponSlot;

verus! {

/// One orbiting-orb weapon and the number of orbs it asks for.
#[derive(Debug, Clone, Copy, PartialEq, Eq, Structural)]
pub struct OrbRequest {
    pub slot: WeaponSlot,
    pub count: u8,
}

impl OrbRequest {
    /// The request of an orb weapon on `slot` with `orb_count` orbs: every
    /// orb weapon keeps at least one orb.
    pub fn for_weapon(slot: WeaponSlot, orb_count: u8) -> (r: OrbRequest)
        ensures
            r.slot == slot,
            r.count == (if orb_count == 0 { 1 } else { orb_count }),
    {
        OrbRequest { slot, count: if orb_count == 0 { 1 } else { orb_count } }
    }
}

/// Identity of one orb: its weapon slot and its index within that slot.
#[derive(Debug, Clone, Copy, PartialEq, Eq, Structural)]
pub struct OrbId {
    pub slot: WeaponSlot,
    pub index: u8,
}

/// The orbs of one request, in index order.
pub open spec fn request_orbs(r: OrbRequest) -> Seq<OrbId> {
    Seq::new(r.count as nat, |i: int| OrbId { slot: r.slot, index: i as u8 })
}

/// Every requested orb, laid end to end in request order; an orb's position
/// here is its ordinal.
pub open spec fn orb_layout(rs: Seq<OrbRequest>) -> Seq<OrbId>
    decreases rs.len(),
{
    if rs.len() == 0 {
        Seq::empty()
    } else {
        orb_layout(rs.drop_last()) + request_orbs(rs.last())
    }
}

/// Total number of requested orbs.
pub open spec fn orb_total(rs: Seq<OrbRequest>) -> int
    decreases rs.len(),
{
    if rs.len() == 0 {
        0
    } else {
        orb_total(rs.drop_last()) + rs.last().count
    }
}

/// The orbs of the layout (from position `from` on) that are neither live
/// nor waiting to respawn, each with its ordinal.
pub open spec fn missing_from(layout: Seq<OrbId>, present: Seq<OrbId>, from: int) -> Seq<(OrbId, u32)>
    decreases layout.len() - from,
{
    if from >= layout.len() || from < 0 {
        Seq::empty()
    } else {
        let rest = missing_from(layout, present, from + 1);
        if present.contains(layout[from]) {
            rest
        } else {
            seq![(layout[from], from as u32)] + rest
        }
    }
}

/// Every orb to spawn sits at its ordinal in the layout and is not present,
/// and ordinals come out strictly increasing (so no two orbs share one).
pub proof fn law_spawned_orbs_sit_at_their_ordinal(layout: Seq<OrbId>, present: Seq<OrbId>, from: int)
    requires
        0 <= from,
        layout.len() <= u32::MAX,
    ensures
        forall|k: int|
            0 <= k < missing_from(layout, present, from).len() ==> {
                let (id, ord) = #[trigger] missing_from(layout, present, from)[k];
                &&& from <= ord < layout.len()
                &&& layout[ord as int] == id
                &&& !present.contains(id)
            },
        forall|a: int, b: int|
            0 <= a < b < missing_from(layout, present, from).len() ==> missing_from(layout, present, from)[a].1
                < missing_from(layout, present, from)[b].1,
    decreases layout.len() - from,
{
    if from < layout.len() {
        law_spawned_orbs_sit_at_their_ordinal(layout, present, from + 1);
        let rest = missing_from(layout, present, from + 1);
        let out = missing_from(layout, present, from);
        if !present.contains(layout[from]) {
            assert forall|k: int| 0 < k < out.len() implies out[k] == rest[k - 1] by {}
            assert forall|a: int, b: int| 0 <= a < b < out.len() implies out[a].1 < out[b].1 by {
                if a > 0 {
                    assert(out[a] == rest[a - 1]);
                }
                assert(out[b] == rest[b - 1]);
            }
        }
    }
}

proof fn lemma_layout_len(rs: Seq<OrbRequest>)
    ensures
        orb_layout(rs).len() == orb_total(rs),
        orb_total(rs) <= rs.len() * 255,
        orb_total(rs) >= 0,
    decreases rs.len(),
{
    if rs.len() > 0 {
        lemma_layout_len(rs.drop_last());
    }
}

/// Total number of orbs the weapons ask for.
pub fn total_orbs(requests: &Vec<OrbRequest>) -> (total: u64)
    requires
        requests@.len() <= 256,
    ensures
        total == orb_total(requests@),
{
    let mut total: u64 = 0;
    let mut i: usize = 0;
    while i < requests.len()
        invariant
            i <= requests@.len() <= 256,
            total == orb_total(requests@.take(i as int)),
        decreases requests@.len() - i,
    {
        proof {
            assert(requests@.take(i + 1).drop_last() =~= requests@.take(i as int));
            lemma_layout_len(requests@.take(i as int));
        }
        total = total + requests[i].count as u64;
        i += 1;
    }
    proof {
        assert(requests@.take(requests@.len() as int) =~= requests@);
    }
    total
}

/// The layout of every requested orb, in ordinal order.
pub fn layout_orbs(requests: &Vec<OrbRequest>) -> (layout: Vec<OrbId>)
    requires
        requests@.len() <= 256,
    ensures
        layout@ == orb_layout(requests@),
{
    let mut layout: Vec<OrbId> = Vec::new();
    let mut i: usize = 0;
    while i < requests.len()
        invariant
            i <= requests@.len() <= 256,
            layout@ == orb_layout(requests@.take(i as int)),
        decreases requests@.len() - i,
    {
        proof {
            assert(requests@.take(i + 1).drop_last() =~= requests@.take(i as int));
        }
        let r = requests[i];
        let ghost base = layout@;
        let mut k: u8 = 0;
        while k < r.count
            invariant
                k <= r.count,
                layout@ == base + request_orbs(r).take(k as int),
            decreases r.count - k,
        {
            layout.push(OrbId { slot: r.slot, index: k });
            proof {
                assert(layout@ =~= base + request_orbs(r).take(k + 1));
            }
            k += 1;
        }
        proof {
            assert(request_orbs(r).take(r.count as int) =~= request_orbs(r));
        }
        i += 1;
    }
    proof {
        assert(requests@.take(requests@.len() as int) =~= requests@);
    }
    layout
}

/// The orbs to spawn this frame, with their ordinals: every requested orb
/// that is neither live nor waiting to respawn (`present`), in ordinal
/// order.
pub fn orbs_to_spawn(requests: &Vec<OrbRequest>, present: &Vec<OrbId>) -> (spawn: Vec<(OrbId, u32)>)
    requires
        requests@.len() <= 256,
    ensures
        spawn@ == missing_from(orb_layout(requests@), present@, 0),
{
    let layout = layout_orbs(requests);
    proof {
        lemma_layout_len(requests@);
    }
    let mut spawn: Vec<(OrbId, u32)> = Vec::new();
    let mut k: usize = 0;
    while k < layout.len()
        invariant
            k <= layout@.len() <= 256 * 255,
            spawn@ + missing_from(layout@, present@, k as int) == missing_from(layout@, present@, 0),
        decreases layout@.len() - k,
    {
        let id = layout[k];
        let mut found = false;
        let mut j: usize = 0;
        while j < present.len()
            invariant
                j <= present@.len(),
                found == exists|p: int| 0 <= p < j && present@[p] == id,
            decreases present@.len() - j,
        {
            if present[j] == id {
                found = true;
            }
            j += 1;
        }
        let ghost before = spawn@;
        proof {
            assert(found == present@.contains(id));
        }
        if !found {
            spawn.push((id, k as u32));
            proof {
                assert(spawn@ + missing_from(layout@, present@, k + 1) =~= before + missing_from(layout@, present@, k as int));
            }
        }
        k += 1;
    }
    proof {
        assert(spawn@ + missing_from(layout@, present@, k as int) =~= spawn@);
    }
    spawn
}

/// Whether the live orbs must be laid out afresh (evenly spaced, ordinals
/// recomputed): no orb is waiting to respawn and the live count differs
/// from the requested total.
pub fn needs_rephase(pending_respawns: usize, live_orbs: usize, total: u64) -> (b: bool)
    ensures
        b == (pending_respawns == 0 && live_orbs != total),
{
    pending_respawns == 0 && live_orbs as u64 != total
}

/// Orbs requested ahead of the first request of `slot` (all of them when no
/// request is for `slot`).
pub open spec fn orbs_before_slot(rs: Seq<OrbRequest>, slot: WeaponSlot) -> int
    decreases rs.len(),
{
    if rs.len() == 0 {
        0
    } else if rs[0].slot == slot {
        0
    } else {
        rs[0].count + orbs_before_slot(rs.drop_first(), slot)
    }
}

proof fn lemma_layout_front(rs: Seq<OrbRequest>)
    requires
        rs.len() > 0,
    ensures
        orb_layout(rs) == request_orbs(rs[0]) + orb_layout(rs.drop_first()),
    decreases rs.len(),
{
    if rs.len() == 1 {
        assert(rs.drop_last() =~= Seq::<OrbRequest>::empty());
        assert(rs.drop_first() =~= Seq::<OrbRequest>::empty());
        assert(orb_layout(rs) =~= request_orbs(rs[0]) + orb_layout(rs.drop_first()));
    } else {
        lemma_layout_front(rs.drop_last());
        assert(rs.drop_last().drop_first() =~= rs.drop_first().drop_last());
        assert(rs.drop_first().last() == rs.last());
        assert(orb_layout(rs) =~= request_orbs(rs[0]) + orb_layout(rs.drop_first()));
    }
}

/// The ordinal an orb is laid out at: where its weapon's orbs begin in the
/// layout, plus its index. For an orb its weapon asks for, that is exactly
/// the orb's position in the layout (weapons with distinct slots).
pub proof fn law_orb_ordinal_is_its_layout_position(rs: Seq<OrbRequest>, id: OrbId, k: int)
    requires
        0 <= k < rs.len(),
        rs[k].slot == id.slot,
        id.index < rs[k].count,
        forall|j: int| 0 <= j < k ==> (#[trigger] rs[j]).slot != id.slot,
    ensures
        0 <= orbs_before_slot(rs, id.slot) + id.index < orb_layout(rs).len(),
        orb_layout(rs)[orbs_before_slot(rs, id.slot) + id.index] == id,
    decreases k,
{
    lemma_layout_front(rs);
    lemma_layout_len(rs.drop_first());
    if k == 0 {
        assert(request_orbs(rs[0])[id.index as int] == id);
    } else {
        assert forall|j: int| 0 <= j < k - 1 implies (#[trigger] rs.drop_first()[j]).slot != id.slot by {
            assert(rs.drop_first()[j] == rs[j + 1]);
        }
        law_orb_ordinal_is_its_layout_position(rs.drop_first(), id, k - 1);
        assert(rs[0].slot != id.slot);
    }
}

/// The ordinal of orb `id` when the orbs are laid out afresh.
pub fn orb_ordinal(requests: &Vec<OrbRequest>, id: OrbId) -> (ordinal: u32)
    requires
        requests@.len() <= 256,
    ensures
        ordinal == orbs_before_slot(requests@, id.slot) + id.index,
{
    let mut before: u32 = 0;
    let mut i: usize = 0;
    proof {
        assert(requests@.skip(0) =~= requests@);
    }
    while i < requests.len()
        invariant
            i <= requests@.len() <= 256,
            before <= i * 255,
            before + orbs_before_slot(requests@.skip(i as int), id.slot) == orbs_before_slot(requests@, id.slot),
        decreases requests@.len() - i,
    {
        let r = requests[i];
        proof {
            assert(requests@.skip(i as int)[0] == r);
            assert(requests@.skip(i as int).drop_first() =~= requests@.skip(i + 1));
        }
        if r.slot == id.slot {
            return before + id.index as u32;
        }
        before = before + r.count as u32;
        i += 1;
    }
    proof {
        assert(requests@.skip(i as int) =~= Seq::<OrbRequest>::empty());
    }
    before + id.index as u32
}

} // verus!
