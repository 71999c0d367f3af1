//! The state that one zone owns.

use crate::entity::{CreatureRecord, Item, Npc, ZoneTemplate};
use crate::entity::{spec_instances_of, spec_record_of};
use crate::population::{
    count_referencing, lemma_spawn_order_counts, populate, spawn_indices, spawn_order,
};
use vstd::prelude::*;

verus! {

/// One zone: its template, the creature database it was given, and its
/// tables of items, creatures and present players.
pub struct Zone {
    pub template: ZoneTemplate,
    pub creatures: Vec<CreatureRecord>,
    /// Whether creatures created by the first tick count as dead for a day
    /// already.
    pub instant_spawn: bool,
    pub items: Vec<Item>,
    pub npcs: Vec<Npc>,
    /// The players that have entered and not left, in order of entry.
    pub players: Vec<i32>,
}

impl Zone {
    /// Whether the creature table holds, for every spawn template, the
    /// creatures that the template stands for, in template order.
    pub open spec fn is_populated(&self) -> bool {
        spawn_indices(self.npcs@) =~= spawn_order(self.template.npcs@, self.creatures@)
    }

    /// The zone's invariant: no player is present twice, every creature
    /// refers to a spawn template, and the creature table is empty or
    /// populated.
    pub open spec fn wf(&self) -> bool {
        &&& self.players@.no_duplicates()
        &&& self.npcs.len() > 0 ==> self.is_populated()
        &&& forall|k: int|
            0 <= k < self.npcs.len() ==> (#[trigger] self.npcs@[k]).spawn_index
                < self.template.npcs.len()
    }

    /// A zone with nobody and nothing in it.
    pub fn new(template: ZoneTemplate, creatures: Vec<CreatureRecord>, instant_spawn: bool) -> (r:
        Zone)
        ensures
            r.wf(),
            r.template == template,
            r.creatures == creatures,
            r.instant_spawn == instant_spawn,
            r.items@.len() == 0,
            r.npcs@.len() == 0,
            r.players@.len() == 0,
    {
        Zone {
            template,
            creatures,
            instant_spawn,
            items: Vec::new(),
            npcs: Vec::new(),
            players: Vec::new(),
        }
    }

    /// Whether the zone's invariant holds.
    pub fn is_well_formed(&self) -> (r: bool)
        ensures
            r == self.wf(),
    {
        let mut i: usize = 0;
        while i < self.players.len()
            invariant
                i <= self.players.len(),
                forall|a: int, b: int|
                    0 <= a < b < i ==> self.players@[a] != self.players@[b],
            decreases self.players.len() - i,
        {
            let mut j: usize = 0;
            while j < i
                invariant
                    j <= i,
                    i < self.players.len(),
                    forall|a: int| 0 <= a < j ==> self.players@[a] != self.players@[i as int],
                decreases i - j,
            {
                if self.players[j] == self.players[i] {
                    return false;
                }
                j = j + 1;
            }
            i = i + 1;
        }
        assert(self.players@.no_duplicates()) by {
            assert forall|a: int, b: int|
                0 <= a < self.players@.len() && 0 <= b < self.players@.len() && a
                    != b implies self.players@[a] != self.players@[b] by {
                if a < b {
                } else {
                    assert(self.players@[b] != self.players@[a]);
                }
            }
        }
        if self.npcs.len() == 0 {
            return true;
        }
        let fresh = populate(&self.template.npcs, &self.creatures, 0);
        if fresh.len() != self.npcs.len() {
            assert(spawn_indices(self.npcs@).len() != spawn_indices(fresh@).len());
            return false;
        }
        let mut k: usize = 0;
        while k < self.npcs.len()
            invariant
                k <= self.npcs.len(),
                fresh.len() == self.npcs.len(),
                spawn_indices(fresh@) =~= spawn_order(self.template.npcs@, self.creatures@),
                forall|m: int|
                    0 <= m < fresh.len() ==> (#[trigger] fresh@[m]).spawn_index
                        < self.template.npcs.len(),
                forall|m: int|
                    0 <= m < k ==> (#[trigger] self.npcs@[m]).spawn_index == fresh@[m].spawn_index,
            decreases self.npcs.len() - k,
        {
            if self.npcs[k].spawn_index != fresh[k].spawn_index {
                assert(spawn_indices(self.npcs@)[k as int] != spawn_indices(fresh@)[k as int]);
                return false;
            }
            k = k + 1;
        }
        assert(spawn_indices(self.npcs@) =~= spawn_indices(fresh@));
        assert forall|m: int| 0 <= m < self.npcs@.len() implies (#[trigger] self.npcs@[m]).spawn_index
            < self.template.npcs.len() by {
            assert(fresh@[m].spawn_index < self.template.npcs.len());
        }
        true
    }
}

/// In a zone with creatures, every spawn template has as many creatures
/// referring to it as it stands for: as many as its amount, where the
/// database knows its creature type.
pub proof fn lemma_table_consistency(zone: Zone, t: int)
    requires
        zone.wf(),
        zone.npcs@.len() > 0,
        0 <= t < zone.template.npcs@.len(),
    ensures
        count_referencing(zone.npcs@, t) == spec_instances_of(
            zone.template.npcs@[t],
            zone.creatures@,
        ),
        spec_record_of(zone.creatures@, zone.template.npcs@[t].id).is_some()
            && zone.template.npcs@[t].amount >= 0 ==> count_referencing(zone.npcs@, t)
            == zone.template.npcs@[t].amount,
{
    lemma_spawn_order_counts(zone.template.npcs@, zone.creatures@, t);
}

} // verus!
