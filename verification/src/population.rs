//! The first population of a zone, and the count that it fixes for good.

use crate::coords::{Coords, Direction};
use crate::entity::{
    record_of, spec_fresh_npc, spec_instances_of, spec_record_of, CreatureRecord, Npc,
    SpawnTemplate,
};
use vstd::prelude::*;

verus! {

/// The spawn template of each creature of a populated zone, in table order:
/// the templates in their order, each as often as it has instances.
pub open spec fn spawn_order(ts: Seq<SpawnTemplate>, db: Seq<CreatureRecord>) -> Seq<int>
    decreases ts.len(),
{
    if ts.len() == 0 {
        Seq::empty()
    } else {
        spawn_order(ts.drop_last(), db) + Seq::new(
            spec_instances_of(ts.last(), db),
            |k: int| ts.len() - 1,
        )
    }
}

/// The spawn template of each creature, in table order.
pub open spec fn spawn_indices(npcs: Seq<Npc>) -> Seq<int> {
    Seq::new(npcs.len(), |k: int| npcs[k].spawn_index as int)
}

/// How often `t` occurs in `order`.
pub open spec fn count_of(order: Seq<int>, t: int) -> nat
    decreases order.len(),
{
    if order.len() == 0 {
        0
    } else {
        count_of(order.drop_last(), t) + if order.last() == t {
            1nat
        } else {
            0nat
        }
    }
}

/// The number of creatures that refer to spawn template `t`.
pub open spec fn count_referencing(npcs: Seq<Npc>, t: int) -> nat {
    count_of(spawn_indices(npcs), t)
}

proof fn lemma_count_concat(a: Seq<int>, b: Seq<int>, t: int)
    ensures
        count_of(a + b, t) == count_of(a, t) + count_of(b, t),
    decreases b.len(),
{
    if b.len() == 0 {
        assert(a + b =~= a);
    } else {
        assert((a + b).drop_last() =~= a + b.drop_last());
        lemma_count_concat(a, b.drop_last(), t);
    }
}

proof fn lemma_count_repeat(n: nat, v: int, t: int)
    ensures
        count_of(Seq::new(n, |k: int| v), t) == if v == t {
            n
        } else {
            0
        },
    decreases n,
{
    if n > 0 {
        assert(Seq::new(n, |k: int| v).drop_last() =~= Seq::new((n - 1) as nat, |k: int| v));
        lemma_count_repeat((n - 1) as nat, v, t);
    }
}

/// In the order of a populated zone, a spawn template occurs as often as it
/// has instances, and nothing occurs that is no template.
pub proof fn lemma_spawn_order_counts(ts: Seq<SpawnTemplate>, db: Seq<CreatureRecord>, t: int)
    ensures
        0 <= t < ts.len() ==> count_of(spawn_order(ts, db), t) == spec_instances_of(ts[t], db),
        !(0 <= t < ts.len()) ==> count_of(spawn_order(ts, db), t) == 0,
    decreases ts.len(),
{
    if ts.len() > 0 {
        let last = ts.len() - 1;
        lemma_spawn_order_counts(ts.drop_last(), db, t);
        lemma_count_concat(
            spawn_order(ts.drop_last(), db),
            Seq::new(spec_instances_of(ts.last(), db), |k: int| last),
            t,
        );
        lemma_count_repeat(spec_instances_of(ts.last(), db), last, t);
    }
}

/// Whether `npcs` is the first population of a zone with these templates:
/// for every template as many creatures as it has instances, in template
/// order, each dead since `dead_since` and at full health.
pub open spec fn is_first_population(
    npcs: Seq<Npc>,
    ts: Seq<SpawnTemplate>,
    db: Seq<CreatureRecord>,
    dead_since: i64,
) -> bool {
    &&& spawn_indices(npcs) =~= spawn_order(ts, db)
    &&& forall|k: int|
        0 <= k < npcs.len() ==> (#[trigger] npcs[k]).spawn_index < ts.len() && npcs[k]
            == spec_fresh_npc(
            ts[npcs[k].spawn_index as int],
            npcs[k].spawn_index,
            db,
            dead_since,
        )
}

/// Creates the creatures of a zone: for every spawn template whose creature
/// type the database knows, as many dead creatures as the template asks for.
/// A template of an unknown type is passed over.
pub fn populate(ts: &Vec<SpawnTemplate>, db: &Vec<CreatureRecord>, dead_since: i64) -> (r: Vec<Npc>)
    ensures
        is_first_population(r@, ts@, db@, dead_since),
{
    let mut out: Vec<Npc> = Vec::new();
    let mut i: usize = 0;
    assert(ts@.take(0) =~= Seq::<SpawnTemplate>::empty());
    while i < ts.len()
        invariant
            i <= ts.len(),
            spawn_indices(out@) =~= spawn_order(ts@.take(i as int), db@),
            forall|k: int|
                0 <= k < out.len() ==> (#[trigger] out@[k]).spawn_index < ts.len() && out@[k]
                    == spec_fresh_npc(
                    ts@[out@[k].spawn_index as int],
                    out@[k].spawn_index,
                    db@,
                    dead_since,
                ),
        decreases ts.len() - i,
    {
        let t = ts[i];
        let ghost before = spawn_order(ts@.take(i as int), db@);
        proof {
            assert(ts@.take(i + 1).drop_last() =~= ts@.take(i as int));
            assert(ts@.take(i + 1).last() == t);
        }
        match record_of(db, t.id) {
            Some(record) => {
                let mut j: i32 = 0;
                while j < t.amount
                    invariant
                        i < ts.len(),
                        t == ts@[i as int],
                        0 <= j,
                        j <= t.amount || j == 0,
                        spec_record_of(db@, t.id) == Some(record),
                        spawn_indices(out@) =~= before + Seq::new(j as nat, |k: int| i as int),
                        forall|k: int|
                            0 <= k < out.len() ==> (#[trigger] out@[k]).spawn_index < ts.len()
                                && out@[k] == spec_fresh_npc(
                                ts@[out@[k].spawn_index as int],
                                out@[k].spawn_index,
                                db@,
                                dead_since,
                            ),
                    decreases t.amount - j,
                {
                    let ghost earlier = spawn_indices(out@);
                    out.push(
                        Npc {
                            id: t.id,
                            coords: Coords { x: 0, y: 0 },
                            direction: Direction::Down,
                            spawn_index: i,
                            alive: false,
                            dead_since,
                            hp: record.hp,
                            max_hp: record.hp,
                        },
                    );
                    j = j + 1;
                    proof {
                        let later = before + Seq::new(j as nat, |k: int| i as int);
                        assert(earlier.len() == later.len() - 1);
                        assert forall|k: int| 0 <= k < later.len() implies spawn_indices(out@)[k]
                            == later[k] by {
                            if k < earlier.len() {
                                assert(spawn_indices(out@)[k] == earlier[k]);
                            }
                        }
                    }
                }
                assert(j as nat == spec_instances_of(t, db@));
            },
            None => {
                assert(spec_instances_of(t, db@) == 0);
                assert(before + Seq::new(0nat, |k: int| i as int) =~= before);
            },
        }
        i = i + 1;
    }
    assert(ts@.take(ts.len() as int) =~= ts@);
    out
}

} // verus!
