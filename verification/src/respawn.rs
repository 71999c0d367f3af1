//! The respawn of a zone's creatures: who is due, where it is placed, and
//! the tick that revives it.

use crate::chance::{roll_between, roll_byte};
use crate::clock::{day_before, spec_day_before, unix_now, DAY_SECONDS};
use crate::coords::{
    direction_from_mode, direction_from_roll, in_wander_window, perturb, spec_direction_of,
    spec_perturb, Coords, WANDER_REACH,
};
use crate::entity::{spec_fresh_npc, Npc, Sighting, SpawnTemplate, ZoneTemplate, FIXED_FACING};
use crate::population::{populate, spawn_indices};
use crate::visibility::{position_of, spec_position_of};
use crate::zone::Zone;
use vstd::prelude::*;

verus! {

/// The number of positions after which placement takes whatever it drew last.
pub const PLACEMENT_BOUND: u32 = 200;

/// A creature is due when it is dead and its template's delay has passed
/// since it died.
pub open spec fn spec_is_due(npc: Npc, t: SpawnTemplate, now: i64) -> bool {
    !npc.alive && now - npc.dead_since >= t.spawn_time
}

/// Whether a creature is to be revived at `now`.
pub fn is_due(npc: &Npc, t: &SpawnTemplate, now: i64) -> (r: bool)
    ensures
        r == spec_is_due(*npc, *t, now),
{
    !npc.alive && now as i128 - npc.dead_since as i128 >= t.spawn_time as i128
}

/// Placement draws again unless a creature can walk on the candidate and
/// nothing stands on it.
pub open spec fn spec_keeps_searching(walkable: bool, occupied: bool) -> bool {
    !walkable || occupied
}

/// Whether placement rejects a candidate.
pub fn keeps_searching(walkable: bool, occupied: bool) -> (r: bool)
    ensures
        r == spec_keeps_searching(walkable, occupied),
{
    !walkable || occupied
}

/// A creature can walk on a tile that lies inside the zone and is no wall.
pub open spec fn spec_is_walkable(zt: ZoneTemplate, c: Coords) -> bool {
    0 <= c.x <= zt.width && 0 <= c.y <= zt.height && !zt.walls@.contains(c)
}

/// A tile is occupied when a living creature stands on it or a present
/// player was seen on it.
pub open spec fn spec_is_occupied(
    npcs: Seq<Npc>,
    players: Seq<i32>,
    sightings: Seq<Sighting>,
    c: Coords,
) -> bool {
    ||| exists|k: int| 0 <= k < npcs.len() && (#[trigger] npcs[k]).alive && npcs[k].coords == c
    ||| exists|k: int|
        0 <= k < players.len() && spec_position_of(sightings, #[trigger] players[k]) == Some(c)
}

/// The timestamp that a creature of the first population is dead since.
pub open spec fn spec_first_dead_since(instant_spawn: bool, now: i64) -> i64 {
    if instant_spawn {
        spec_day_before(now)
    } else {
        now
    }
}

/// What placement promises of the position `c` that it found for a creature
/// of template `t` after `attempts` rejected candidates. A fixed creature
/// stands at its origin, whatever the origin is like. A wandering creature
/// stands in the window around its origin, and on a walkable tile with
/// nothing on it unless the bound was reached.
pub open spec fn spec_placed(
    zt: ZoneTemplate,
    npcs: Seq<Npc>,
    players: Seq<i32>,
    sightings: Seq<Sighting>,
    t: SpawnTemplate,
    c: Coords,
    attempts: u32,
) -> bool {
    if t.spawn_type == FIXED_FACING {
        c == t.coords && attempts == 0
    } else {
        &&& attempts <= PLACEMENT_BOUND
        &&& in_wander_window(c, t.coords, zt.width as int, zt.height as int)
        &&& attempts < PLACEMENT_BOUND ==> spec_is_walkable(zt, c) && !spec_is_occupied(
            npcs,
            players,
            sightings,
            c,
        )
    }
}

/// Whether a draw lies within the reach of a wandering creature.
pub open spec fn spec_in_reach(d: (i32, i32)) -> bool {
    -WANDER_REACH <= d.0 <= WANDER_REACH && -WANDER_REACH <= d.1 <= WANDER_REACH
}

/// The first candidate of a search: the origin for a fixed creature, the
/// origin moved by the draw for a wandering one.
pub open spec fn spec_first_candidate(zt: ZoneTemplate, t: SpawnTemplate, d: (i32, i32)) -> Coords {
    if t.spawn_type == FIXED_FACING {
        t.coords
    } else {
        spec_perturb(t.coords, d.0 as int, d.1 as int, zt.width as int, zt.height as int)
    }
}

/// Whether a search for a creature of template `t` that stands at `c` after
/// `attempts` rejections draws again: never for a fixed creature, and for a
/// wandering one while the candidate is rejected and the bound not reached.
pub open spec fn spec_goes_on(
    zone: Zone,
    sightings: Seq<Sighting>,
    t: SpawnTemplate,
    c: Coords,
    attempts: u32,
) -> bool {
    &&& t.spawn_type != FIXED_FACING
    &&& attempts < PLACEMENT_BOUND
    &&& spec_keeps_searching(
        spec_is_walkable(zone.template, c),
        spec_is_occupied(zone.npcs@, zone.players@, sightings, c),
    )
}

/// Where the search for a creature of template `t` stands after it was
/// offered `first` and then `draws`, one after the other: `first` makes the
/// first candidate, each later draw is taken as the next candidate while the
/// search goes on, and passed over once it has ended.
pub open spec fn spec_search(
    zone: Zone,
    sightings: Seq<Sighting>,
    t: SpawnTemplate,
    first: (i32, i32),
    draws: Seq<(i32, i32)>,
) -> (Coords, u32)
    decreases draws.len(),
{
    if draws.len() == 0 {
        (spec_first_candidate(zone.template, t, first), 0u32)
    } else {
        let before = spec_search(zone, sightings, t, first, draws.drop_last());
        if spec_goes_on(zone, sightings, t, before.0, before.1) {
            (
                spec_perturb(
                    t.coords,
                    draws.last().0 as int,
                    draws.last().1 as int,
                    zone.template.width as int,
                    zone.template.height as int,
                ),
                (before.1 + 1) as u32,
            )
        } else {
            before
        }
    }
}

/// Whether a placement that ended at `c` after `attempts` rejections is what
/// the search makes of the draws `first` and `draws`, all of them within
/// reach and none of them left over.
pub open spec fn spec_placed_by(
    zone: Zone,
    sightings: Seq<Sighting>,
    t: SpawnTemplate,
    first: (i32, i32),
    draws: Seq<(i32, i32)>,
    c: Coords,
    attempts: u32,
) -> bool {
    &&& spec_in_reach(first)
    &&& forall|k: int| 0 <= k < draws.len() ==> spec_in_reach(#[trigger] draws[k])
    &&& draws.len() == attempts
    &&& (c, attempts) == spec_search(zone, sightings, t, first, draws)
    &&& !spec_goes_on(zone, sightings, t, c, attempts)
}

/// How a revived creature relates to what it was: alive, at full health, at
/// a position and with a facing that its template allows, otherwise the same.
pub open spec fn spec_revived(before: Npc, after: Npc, zt: ZoneTemplate) -> bool {
    let t = zt.npcs@[before.spawn_index as int];
    let width = zt.width as int;
    let height = zt.height as int;
    &&& after.alive
    &&& after.hp == before.max_hp
    &&& after.max_hp == before.max_hp
    &&& after.id == before.id
    &&& after.spawn_index == before.spawn_index
    &&& after.dead_since == before.dead_since
    &&& if t.spawn_type == FIXED_FACING {
        &&& after.direction == spec_direction_of((t.spawn_type & 3) as int)
        &&& after.coords == t.coords
    } else {
        in_wander_window(after.coords, t.coords, width, height)
    }
}

/// One creature across a tick: revived if it was due, untouched if not.
pub open spec fn spec_stepped(before: Npc, after: Npc, zt: ZoneTemplate, now: i64) -> bool {
    if spec_is_due(before, zt.npcs@[before.spawn_index as int], now) {
        spec_revived(before, after, zt)
    } else {
        after == before
    }
}

/// The creature that stood at place `k` when the tick began: the one of the
/// table, or, where the tick populated an empty table, the fresh creature of
/// the template that `after` refers to.
pub open spec fn spec_tick_base(pre: Zone, after: Npc, k: int, now: i64) -> Npc {
    if pre.npcs@.len() > 0 {
        pre.npcs@[k]
    } else {
        spec_fresh_npc(
            pre.template.npcs@[after.spawn_index as int],
            after.spawn_index,
            pre.creatures@,
            spec_first_dead_since(pre.instant_spawn, now),
        )
    }
}

/// The creature table as it stood when a tick reached place `k`: the
/// creatures before `k` as the tick left them, the others as it found them.
pub open spec fn spec_table_at(base: Seq<Npc>, post: Seq<Npc>, k: int) -> Seq<Npc> {
    Seq::new(base.len(), |j: int| if j < k { post[j] } else { base[j] })
}

/// The creature table as a tick found it, or as it first populated it.
pub open spec fn spec_tick_table(pre: Zone, post: Zone, now: i64) -> Seq<Npc> {
    Seq::new(post.npcs@.len(), |k: int| spec_tick_base(pre, post.npcs@[k], k, now))
}

/// What a tick reports of the creature at place `k`: nothing where it was
/// not due, else the number of candidates that its placement rejected, and
/// with it what placement promises of its position on the table as it stood
/// at the creature's turn.
pub open spec fn spec_reported_at(
    zt: ZoneTemplate,
    players: Seq<i32>,
    sightings: Seq<Sighting>,
    base: Seq<Npc>,
    post: Seq<Npc>,
    now: i64,
    k: int,
    entry: Option<u32>,
) -> bool {
    let t = zt.npcs@[base[k].spawn_index as int];
    match entry {
        None => !spec_is_due(base[k], t, now),
        Some(attempts) => spec_is_due(base[k], t, now) && spec_placed(
            zt,
            spec_table_at(base, post, k),
            players,
            sightings,
            t,
            post[k].coords,
            attempts,
        ),
    }
}

/// What one tick at `now` makes of a zone and reports: the creature table is
/// populated, every creature that was due is revived, nothing else changes,
/// and the report has one entry for every creature.
pub open spec fn spec_ticked(
    pre: Zone,
    post: Zone,
    sightings: Seq<Sighting>,
    now: i64,
    report: Seq<Option<u32>>,
) -> bool {
    &&& post.wf()
    &&& post.is_populated()
    &&& post.template == pre.template
    &&& post.creatures == pre.creatures
    &&& post.instant_spawn == pre.instant_spawn
    &&& post.items == pre.items
    &&& post.players == pre.players
    &&& pre.npcs@.len() > 0 ==> post.npcs@.len() == pre.npcs@.len()
    &&& forall|k: int|
        0 <= k < post.npcs@.len() ==> spec_stepped(
            spec_tick_base(pre, #[trigger] post.npcs@[k], k, now),
            post.npcs@[k],
            pre.template,
            now,
        )
    &&& report.len() == post.npcs@.len()
    &&& forall|k: int|
        0 <= k < report.len() ==> spec_reported_at(
            pre.template,
            pre.players@,
            sightings,
            spec_tick_table(pre, post, now),
            post.npcs@,
            now,
            k,
            #[trigger] report[k],
        )
}

impl Zone {
    /// Whether a creature can walk on `c`.
    pub fn is_tile_walkable_npc(&self, c: Coords) -> (r: bool)
        ensures
            r == spec_is_walkable(self.template, c),
    {
        if c.x < 0 || c.x > self.template.width || c.y < 0 || c.y > self.template.height {
            return false;
        }
        let mut i: usize = 0;
        while i < self.template.walls.len()
            invariant
                i <= self.template.walls.len(),
                forall|k: int| 0 <= k < i ==> self.template.walls@[k] != c,
            decreases self.template.walls.len() - i,
        {
            if self.template.walls[i] == c {
                return false;
            }
            i = i + 1;
        }
        true
    }

    /// Whether a living creature or a present player stands on `c`.
    pub fn is_tile_occupied(&self, sightings: &Vec<Sighting>, c: Coords) -> (r: bool)
        ensures
            r == spec_is_occupied(self.npcs@, self.players@, sightings@, c),
    {
        let mut i: usize = 0;
        while i < self.npcs.len()
            invariant
                i <= self.npcs.len(),
                forall|k: int| 0 <= k < i ==> !((#[trigger] self.npcs@[k]).alive && self.npcs@[k].coords == c),
            decreases self.npcs.len() - i,
        {
            if self.npcs[i].alive && self.npcs[i].coords == c {
                return true;
            }
            i = i + 1;
        }
        let mut j: usize = 0;
        while j < self.players.len()
            invariant
                j <= self.players.len(),
                forall|k: int| 0 <= k < self.npcs.len() ==> !((#[trigger] self.npcs@[k]).alive && self.npcs@[k].coords == c),
                forall|k: int|
                    0 <= k < j ==> spec_position_of(sightings@, #[trigger] self.players@[k])
                        != Some(c),
            decreases self.players.len() - j,
        {
            match position_of(sightings, self.players[j]) {
                Some(p) => {
                    if p == c {
                        return true;
                    }
                },
                None => {},
            }
            j = j + 1;
        }
        false
    }

    /// Whether a search for a creature of template `t` that stands at `c`
    /// after `attempts` rejections draws again.
    pub fn goes_on(&self, sightings: &Vec<Sighting>, t: &SpawnTemplate, c: Coords, attempts: u32) -> (r:
        bool)
        ensures
            r == spec_goes_on(*self, sightings@, *t, c, attempts),
    {
        t.spawn_type != FIXED_FACING && attempts < PLACEMENT_BOUND && keeps_searching(
            self.is_tile_walkable_npc(c),
            self.is_tile_occupied(sightings, c),
        )
    }

    /// The first candidate of a search: the origin for a fixed creature, the
    /// origin moved by the draw and clamped to the zone for a wandering one.
    pub fn first_candidate(&self, t: &SpawnTemplate, first: (i32, i32)) -> (r: Coords)
        ensures
            r == spec_first_candidate(self.template, *t, first),
    {
        if t.spawn_type == FIXED_FACING {
            t.coords
        } else {
            perturb(t.coords, first.0, first.1, self.template.width, self.template.height)
        }
    }

    /// Runs a search on given draws: `first` makes the first candidate, and
    /// every later draw is taken as the next candidate while the search goes
    /// on. Returns where the search then stands and how many candidates it
    /// rejected.
    pub fn place_from(
        &self,
        sightings: &Vec<Sighting>,
        t: &SpawnTemplate,
        first: (i32, i32),
        draws: &Vec<(i32, i32)>,
    ) -> (r: (Coords, u32))
        ensures
            r == spec_search(*self, sightings@, *t, first, draws@),
    {
        let mut c = self.first_candidate(t, first);
        let mut attempts: u32 = 0;
        let mut i: usize = 0;
        assert(draws@.take(0) =~= Seq::<(i32, i32)>::empty());
        while i < draws.len()
            invariant
                i <= draws.len(),
                (c, attempts) == spec_search(*self, sightings@, *t, first, draws@.take(i as int)),
            decreases draws.len() - i,
        {
            proof {
                assert(draws@.take(i + 1).drop_last() =~= draws@.take(i as int));
                assert(draws@.take(i + 1).last() == draws@[i as int]);
            }
            if self.goes_on(sightings, t, c, attempts) {
                let d = draws[i];
                c = perturb(t.coords, d.0, d.1, self.template.width, self.template.height);
                attempts = attempts + 1;
            }
            i = i + 1;
        }
        assert(draws@.take(draws.len() as int) =~= draws@);
        (c, attempts)
    }

    /// Finds the position at which a creature of template `t` is revived,
    /// and says how many candidates it rejected on the way. A fixed creature
    /// gets its origin, unexamined. For a wandering creature every candidate
    /// is a draw around the origin; the first one that a creature can walk
    /// on and that nothing stands on is taken, and after `PLACEMENT_BOUND`
    /// rejections the last draw is taken as it is.
    pub fn place(&self, sightings: &Vec<Sighting>, t: &SpawnTemplate) -> (r: (Coords, u32))
        ensures
            spec_placed(self.template, self.npcs@, self.players@, sightings@, *t, r.0, r.1),
            exists|first: (i32, i32), draws: Seq<(i32, i32)>| #[trigger]
                spec_placed_by(*self, sightings@, *t, first, draws, r.0, r.1),
    {
        let width = self.template.width;
        let height = self.template.height;
        let fixed = t.spawn_type == FIXED_FACING;
        let dx: i32 = if fixed {
            0
        } else {
            roll_between(-WANDER_REACH, WANDER_REACH)
        };
        let dy: i32 = if fixed {
            0
        } else {
            roll_between(-WANDER_REACH, WANDER_REACH)
        };
        let mut c = self.first_candidate(t, (dx, dy));
        let ghost first = (dx, dy);
        let ghost drawn = Seq::<(i32, i32)>::empty();
        let mut attempts: u32 = 0;
        let mut searching = self.goes_on(sightings, t, c, attempts);
        while searching
            invariant
                width == self.template.width,
                height == self.template.height,
                fixed == (t.spawn_type == FIXED_FACING),
                spec_in_reach(first),
                forall|k: int| 0 <= k < drawn.len() ==> spec_in_reach(#[trigger] drawn[k]),
                drawn.len() == attempts,
                (c, attempts) == spec_search(*self, sightings@, *t, first, drawn),
                searching == spec_goes_on(*self, sightings@, *t, c, attempts),
                attempts <= PLACEMENT_BOUND,
                fixed ==> c == t.coords && attempts == 0,
                !fixed ==> in_wander_window(c, t.coords, width as int, height as int),
            decreases PLACEMENT_BOUND - attempts,
        {
            let ex: i32 = roll_between(-WANDER_REACH, WANDER_REACH);
            let ey: i32 = roll_between(-WANDER_REACH, WANDER_REACH);
            proof {
                assert(drawn.push((ex, ey)).drop_last() =~= drawn);
                drawn = drawn.push((ex, ey));
            }
            c = perturb(t.coords, ex, ey, width, height);
            attempts = attempts + 1;
            searching = self.goes_on(sightings, t, c, attempts);
        }
        let r = (c, attempts);
        assert(spec_placed_by(*self, sightings@, *t, first, drawn, r.0, r.1));
        r
    }

    /// One respawn tick at the time `now`. An empty creature table is first
    /// populated from the spawn templates; then every creature that is due
    /// is revived at a position found by `place`. The report says of every
    /// creature how many candidates its placement rejected, or nothing where
    /// the creature was not due.
    pub fn spawn_npcs_at(&mut self, now: i64, sightings: &Vec<Sighting>) -> (report: Vec<
        Option<u32>,
    >)
        requires
            old(self).wf(),
        ensures
            spec_ticked(*old(self), *final(self), sightings@, now, report@),
    {
        if self.npcs.len() == 0 {
            let dead_since = if self.instant_spawn {
                day_before(now)
            } else {
                now
            };
            self.npcs = populate(&self.template.npcs, &self.creatures, dead_since);
        }
        let ghost pre = *old(self);
        let ghost base = self.npcs@;
        let n = self.npcs.len();
        let mut report: Vec<Option<u32>> = Vec::new();
        let mut index: usize = 0;
        while index < n
            invariant
                index <= n,
                n == self.npcs@.len(),
                n == base.len(),
                self.template == pre.template,
                self.creatures == pre.creatures,
                self.instant_spawn == pre.instant_spawn,
                self.items == pre.items,
                self.players == pre.players,
                spawn_indices(self.npcs@) =~= spawn_indices(base),
                forall|k: int|
                    0 <= k < n ==> (#[trigger] base[k]).spawn_index < pre.template.npcs.len(),
                forall|k: int|
                    0 <= k < index ==> spec_stepped(
                        #[trigger] base[k],
                        self.npcs@[k],
                        pre.template,
                        now,
                    ),
                forall|k: int| index <= k < n ==> self.npcs@[k] == #[trigger] base[k],
                report@.len() == index,
                forall|k: int|
                    0 <= k < index ==> spec_reported_at(
                        pre.template,
                        pre.players@,
                        sightings@,
                        base,
                        self.npcs@,
                        now,
                        k,
                        #[trigger] report@[k],
                    ),
            decreases n - index,
        {
            let npc = self.npcs[index];
            assert(npc == base[index as int]);
            let t = self.template.npcs[npc.spawn_index];
            let ghost earlier = self.npcs@;
            let ghost told = report@;
            if is_due(&npc, &t, now) {
                let (coords, attempts) = self.place(sightings, &t);
                let direction = if t.spawn_type == FIXED_FACING {
                    direction_from_mode(t.spawn_type)
                } else {
                    direction_from_roll(roll_byte())
                };
                self.npcs.set(
                    index,
                    Npc {
                        id: npc.id,
                        coords,
                        direction,
                        spawn_index: npc.spawn_index,
                        alive: true,
                        dead_since: npc.dead_since,
                        hp: npc.max_hp,
                        max_hp: npc.max_hp,
                    },
                );
                report.push(Some(attempts));
                proof {
                    assert forall|k: int| 0 <= k < n implies spawn_indices(self.npcs@)[k]
                        == spawn_indices(base)[k] by {
                        assert(spawn_indices(earlier)[k] == spawn_indices(base)[k]);
                    }
                    assert(spec_table_at(base, self.npcs@, index as int) =~= earlier);
                }
            } else {
                report.push(None);
            }
            proof {
                assert forall|k: int| 0 <= k < index implies spec_reported_at(
                    pre.template,
                    pre.players@,
                    sightings@,
                    base,
                    self.npcs@,
                    now,
                    k,
                    #[trigger] report@[k],
                ) by {
                    assert(report@[k] == told[k]);
                    assert(spec_table_at(base, self.npcs@, k) =~= spec_table_at(base, earlier, k));
                    assert(spec_reported_at(
                        pre.template,
                        pre.players@,
                        sightings@,
                        base,
                        earlier,
                        now,
                        k,
                        told[k],
                    ));
                }
            }
            index = index + 1;
        }
        proof {
            assert forall|k: int| 0 <= k < self.npcs@.len() implies base[k] == spec_tick_base(
                pre,
                #[trigger] self.npcs@[k],
                k,
                now,
            ) by {
                assert(spawn_indices(self.npcs@)[k] == spawn_indices(base)[k]);
            }
            assert(spec_tick_table(pre, *self, now) =~= base);
            assert forall|k: int| 0 <= k < self.npcs@.len() implies spec_stepped(
                spec_tick_base(pre, #[trigger] self.npcs@[k], k, now),
                self.npcs@[k],
                pre.template,
                now,
            ) by {
                assert(spec_stepped(base[k], self.npcs@[k], pre.template, now));
            }
            assert forall|k: int| 0 <= k < self.npcs@.len() implies (
            #[trigger] self.npcs@[k]).spawn_index < self.template.npcs.len() by {
                assert(spawn_indices(self.npcs@)[k] == spawn_indices(base)[k]);
                assert(base[k].spawn_index < pre.template.npcs.len());
            }
        }
        report
    }

    /// One respawn tick at the current time. Returns the time, which is not
    /// before 1970, and the tick's report.
    pub fn spawn_npcs(&mut self, sightings: &Vec<Sighting>) -> (r: (i64, Vec<Option<u32>>))
        requires
            old(self).wf(),
        ensures
            r.0 >= 0,
            spec_ticked(*old(self), *final(self), sightings@, r.0, r.1@),
    {
        let now = unix_now();
        let report = self.spawn_npcs_at(now, sightings);
        (now, report)
    }
}

/// A creature that is dead and whose delay has passed when a tick begins is
/// alive and at full health when the tick ends; one that is not due is left
/// as it was.
pub proof fn lemma_tick_revives_due(
    pre: Zone,
    post: Zone,
    sightings: Seq<Sighting>,
    now: i64,
    report: Seq<Option<u32>>,
    k: int,
)
    requires
        pre.wf(),
        spec_ticked(pre, post, sightings, now, report),
        0 <= k < pre.npcs@.len(),
    ensures
        k < post.npcs@.len(),
        spec_is_due(pre.npcs@[k], pre.template.npcs@[pre.npcs@[k].spawn_index as int], now) ==> {
            &&& post.npcs@[k].alive
            &&& post.npcs@[k].hp == post.npcs@[k].max_hp
            &&& post.npcs@[k].max_hp == pre.npcs@[k].max_hp
        },
        !spec_is_due(pre.npcs@[k], pre.template.npcs@[pre.npcs@[k].spawn_index as int], now)
            ==> post.npcs@[k] == pre.npcs@[k],
{
    assert(spec_stepped(
        spec_tick_base(pre, post.npcs@[k], k, now),
        post.npcs@[k],
        pre.template,
        now,
    ));
}

/// After a tick every creature that its zone holds is alive or not yet due.
pub proof fn lemma_tick_leaves_none_due(
    pre: Zone,
    post: Zone,
    sightings: Seq<Sighting>,
    now: i64,
    report: Seq<Option<u32>>,
    k: int,
)
    requires
        pre.wf(),
        spec_ticked(pre, post, sightings, now, report),
        0 <= k < post.npcs@.len(),
    ensures
        !spec_is_due(post.npcs@[k], post.template.npcs@[post.npcs@[k].spawn_index as int], now),
{
    assert(spec_stepped(
        spec_tick_base(pre, post.npcs@[k], k, now),
        post.npcs@[k],
        pre.template,
        now,
    ));
}

/// In a zone with instant spawn, the tick that populates the creature table
/// also revives every creature whose template's delay is at most a day,
/// provided the tick's time lies a day or more after the least timestamp.
pub proof fn lemma_instant_spawn_revives(
    pre: Zone,
    post: Zone,
    sightings: Seq<Sighting>,
    now: i64,
    report: Seq<Option<u32>>,
    k: int,
)
    requires
        pre.wf(),
        pre.npcs@.len() == 0,
        pre.instant_spawn,
        now - DAY_SECONDS >= i64::MIN,
        spec_ticked(pre, post, sightings, now, report),
        0 <= k < post.npcs@.len(),
        pre.template.npcs@[post.npcs@[k].spawn_index as int].spawn_time <= DAY_SECONDS,
    ensures
        post.npcs@[k].alive,
        post.npcs@[k].hp == post.npcs@[k].max_hp,
        post.npcs@[k].dead_since == now - DAY_SECONDS,
{
    assert(spec_stepped(
        spec_tick_base(pre, post.npcs@[k], k, now),
        post.npcs@[k],
        pre.template,
        now,
    ));
}

/// A wandering creature that a tick revived after fewer rejections than the
/// bound stands on a tile that a creature can walk on, and on which nothing
/// stood at the creature's turn; no placement rejects more candidates than
/// the bound, and that of a fixed creature rejects none.
pub proof fn lemma_tick_places_within_bound(
    pre: Zone,
    post: Zone,
    sightings: Seq<Sighting>,
    now: i64,
    report: Seq<Option<u32>>,
    k: int,
)
    requires
        pre.wf(),
        spec_ticked(pre, post, sightings, now, report),
        0 <= k < report.len(),
        report[k].is_some(),
    ensures
        report[k].unwrap() <= PLACEMENT_BOUND,
        pre.template.npcs@[post.npcs@[k].spawn_index as int].spawn_type == FIXED_FACING
            ==> report[k].unwrap() == 0,
        pre.template.npcs@[post.npcs@[k].spawn_index as int].spawn_type != FIXED_FACING
            && report[k].unwrap() < PLACEMENT_BOUND ==> {
            &&& spec_is_walkable(pre.template, post.npcs@[k].coords)
            &&& !spec_is_occupied(
                spec_table_at(spec_tick_table(pre, post, now), post.npcs@, k),
                pre.players@,
                sightings,
                post.npcs@[k].coords,
            )
        },
{
    assert(spec_reported_at(
        pre.template,
        pre.players@,
        sightings,
        spec_tick_table(pre, post, now),
        post.npcs@,
        now,
        k,
        report[k],
    ));
    assert(spec_stepped(
        spec_tick_base(pre, post.npcs@[k], k, now),
        post.npcs@[k],
        pre.template,
        now,
    ));
}

} // verus!
