//! Who is nearby whom: the one rule behind every broadcast and every query.

use crate::coords::{is_nearby, spec_is_nearby, Coords};
use crate::entity::{Item, Npc, Sighting};
use vstd::prelude::*;

verus! {

/// Where a player was seen: the answer of the first sighting that names the
/// player, `None` where no sighting does or the session did not answer.
pub open spec fn spec_position_of(sightings: Seq<Sighting>, id: i32) -> Option<Coords>
    decreases sightings.len(),
{
    if sightings.len() == 0 {
        None
    } else if sightings[0].player_id == id {
        sightings[0].coords
    } else {
        spec_position_of(sightings.drop_first(), id)
    }
}

/// Where a player was seen, if anywhere.
pub fn position_of(sightings: &Vec<Sighting>, id: i32) -> (r: Option<Coords>)
    ensures
        r == spec_position_of(sightings@, id),
{
    let mut i: usize = 0;
    assert(sightings@.skip(0) =~= sightings@);
    while i < sightings.len()
        invariant
            i <= sightings.len(),
            spec_position_of(sightings@, id) == spec_position_of(sightings@.skip(i as int), id),
        decreases sightings.len() - i,
    {
        assert(sightings@.skip(i as int).drop_first() =~= sightings@.skip(i + 1));
        if sightings[i].player_id == id {
            return sightings[i].coords;
        }
        i = i + 1;
    }
    None
}

/// Whether the player `id` was seen nearby `center`. Nobody is nearby an
/// unknown position, and a player who was not seen is nearby nothing.
pub open spec fn spec_hears(sightings: Seq<Sighting>, center: Option<Coords>, id: i32) -> bool {
    match (center, spec_position_of(sightings, id)) {
        (Some(c), Some(p)) => spec_is_nearby(c, p),
        _ => false,
    }
}

/// Whether the player `id` was seen nearby `center`.
pub fn hears(sightings: &Vec<Sighting>, center: Option<Coords>, id: i32) -> (r: bool)
    ensures
        r == spec_hears(sightings@, center, id),
{
    match center {
        Some(c) => match position_of(sightings, id) {
            Some(p) => is_nearby(c, p),
            None => false,
        },
        None => false,
    }
}

/// The rule by which a broadcast around `center` picks its recipients:
/// everybody seen nearby, but for `except`.
pub open spec fn audience_rule(
    sightings: Seq<Sighting>,
    center: Option<Coords>,
    except: Option<i32>,
) -> spec_fn(i32) -> bool {
    |id: i32| except != Some(id) && spec_hears(sightings, center, id)
}

/// The recipients of a broadcast around `center`: the present players that
/// the rule picks, in the order of the table.
pub open spec fn spec_audience(
    players: Seq<i32>,
    sightings: Seq<Sighting>,
    center: Option<Coords>,
    except: Option<i32>,
) -> Seq<i32> {
    players.filter(audience_rule(sightings, center, except))
}

/// The rule by which a query picks the characters that an observer sees: the
/// observer, and everybody seen nearby the observer.
pub open spec fn company_rule(sightings: Seq<Sighting>, observer: i32) -> spec_fn(i32) -> bool {
    |id: i32| id == observer || spec_hears(sightings, spec_position_of(sightings, observer), id)
}

/// The characters that an observer sees, in the order of the table.
pub open spec fn spec_nearby_characters(
    players: Seq<i32>,
    sightings: Seq<Sighting>,
    observer: i32,
) -> Seq<i32> {
    players.filter(company_rule(sightings, observer))
}

/// Whether something at `at` is seen from `center`.
pub open spec fn spec_sees(center: Option<Coords>, at: Coords) -> bool {
    match center {
        Some(c) => spec_is_nearby(c, at),
        None => false,
    }
}

/// Whether something at `at` is seen from `center`.
pub fn sees(center: Option<Coords>, at: Coords) -> (r: bool)
    ensures
        r == spec_sees(center, at),
{
    match center {
        Some(c) => is_nearby(c, at),
        None => false,
    }
}

/// The items seen from `center`, in the order of the table.
pub open spec fn spec_nearby_items(items: Seq<Item>, center: Option<Coords>) -> Seq<Item> {
    items.filter(|item: Item| spec_sees(center, item.coords))
}

/// A creature as an observer is told of it: under its place in the zone's
/// table, by which it stays the same creature from query to query.
#[derive(Clone, Copy, Debug, PartialEq, Eq, Structural)]
pub struct NpcInfo {
    pub index: usize,
    pub npc: Npc,
}

/// Every creature of the table beside its place.
pub open spec fn spec_indexed(npcs: Seq<Npc>) -> Seq<NpcInfo> {
    Seq::new(npcs.len(), |k: int| NpcInfo { index: k as usize, npc: npcs[k] })
}

/// The living creatures seen from `center`, in the order of the table.
pub open spec fn spec_nearby_npcs(npcs: Seq<Npc>, center: Option<Coords>) -> Seq<NpcInfo> {
    spec_indexed(npcs).filter(|info: NpcInfo| info.npc.alive && spec_sees(center, info.npc.coords))
}

/// Picks the recipients of a broadcast around `center` among `players`.
pub fn audience(
    players: &Vec<i32>,
    sightings: &Vec<Sighting>,
    center: Option<Coords>,
    except: Option<i32>,
) -> (r: Vec<i32>)
    ensures
        r@ == spec_audience(players@, sightings@, center, except),
{
    let ghost rule = audience_rule(sightings@, center, except);
    let mut out: Vec<i32> = Vec::new();
    let mut i: usize = 0;
    assert(players@.take(0).filter(rule) =~= Seq::<i32>::empty());
    while i < players.len()
        invariant
            i <= players.len(),
            rule == audience_rule(sightings@, center, except),
            out@ == players@.take(i as int).filter(rule),
        decreases players.len() - i,
    {
        let id = players[i];
        proof {
            assert(players@.take(i + 1) =~= players@.take(i as int).push(id));
            players@.take(i as int).lemma_filter_push(id, rule);
        }
        let excluded = match except {
            Some(e) => e == id,
            None => false,
        };
        if !excluded && hears(sightings, center, id) {
            out.push(id);
        }
        i = i + 1;
    }
    assert(players@.take(players.len() as int) =~= players@);
    out
}

/// Picks the characters that `observer` sees among `players`.
pub fn nearby_characters(players: &Vec<i32>, sightings: &Vec<Sighting>, observer: i32) -> (r: Vec<
    i32,
>)
    ensures
        r@ == spec_nearby_characters(players@, sightings@, observer),
{
    let ghost rule = company_rule(sightings@, observer);
    let center = position_of(sightings, observer);
    let mut out: Vec<i32> = Vec::new();
    let mut i: usize = 0;
    assert(players@.take(0).filter(rule) =~= Seq::<i32>::empty());
    while i < players.len()
        invariant
            i <= players.len(),
            center == spec_position_of(sightings@, observer),
            rule == company_rule(sightings@, observer),
            out@ == players@.take(i as int).filter(rule),
        decreases players.len() - i,
    {
        let id = players[i];
        proof {
            assert(players@.take(i + 1) =~= players@.take(i as int).push(id));
            players@.take(i as int).lemma_filter_push(id, rule);
        }
        if id == observer || hears(sightings, center, id) {
            out.push(id);
        }
        i = i + 1;
    }
    assert(players@.take(players.len() as int) =~= players@);
    out
}

/// Picks the items seen from `center`.
pub fn nearby_items(items: &Vec<Item>, center: Option<Coords>) -> (r: Vec<Item>)
    ensures
        r@ == spec_nearby_items(items@, center),
{
    let ghost rule = |item: Item| spec_sees(center, item.coords);
    let mut out: Vec<Item> = Vec::new();
    let mut i: usize = 0;
    assert(items@.take(0).filter(rule) =~= Seq::<Item>::empty());
    while i < items.len()
        invariant
            i <= items.len(),
            rule == |item: Item| spec_sees(center, item.coords),
            out@ == items@.take(i as int).filter(rule),
        decreases items.len() - i,
    {
        let item = items[i];
        proof {
            assert(items@.take(i + 1) =~= items@.take(i as int).push(item));
            items@.take(i as int).lemma_filter_push(item, rule);
        }
        if sees(center, item.coords) {
            out.push(item);
        }
        i = i + 1;
    }
    assert(items@.take(items.len() as int) =~= items@);
    out
}

/// Picks the living creatures seen from `center`, each with its place in
/// the table.
pub fn nearby_npcs(npcs: &Vec<Npc>, center: Option<Coords>) -> (r: Vec<NpcInfo>)
    ensures
        r@ == spec_nearby_npcs(npcs@, center),
{
    let ghost rule = |info: NpcInfo| info.npc.alive && spec_sees(center, info.npc.coords);
    let ghost all = spec_indexed(npcs@);
    let mut out: Vec<NpcInfo> = Vec::new();
    let mut i: usize = 0;
    assert(all.take(0).filter(rule) =~= Seq::<NpcInfo>::empty());
    while i < npcs.len()
        invariant
            i <= npcs.len(),
            all == spec_indexed(npcs@),
            rule == |info: NpcInfo| info.npc.alive && spec_sees(center, info.npc.coords),
            out@ == all.take(i as int).filter(rule),
        decreases npcs.len() - i,
    {
        let info = NpcInfo { index: i, npc: npcs[i] };
        proof {
            assert(all.take(i + 1) =~= all.take(i as int).push(info));
            all.take(i as int).lemma_filter_push(info, rule);
        }
        if info.npc.alive && sees(center, info.npc.coords) {
            out.push(info);
        }
        i = i + 1;
    }
    assert(all.take(npcs.len() as int) =~= all);
    out
}

/// What is kept of a sequence without repetition by a rule is exactly what
/// the rule picks of it, each once.
pub proof fn lemma_filter_exact(s: Seq<i32>, rule: spec_fn(i32) -> bool)
    requires
        s.no_duplicates(),
    ensures
        s.filter(rule).no_duplicates(),
        forall|id: i32| #[trigger] s.filter(rule).contains(id) <==> s.contains(id) && rule(id),
    decreases s.len(),
{
    reveal(Seq::filter);
    if s.len() > 0 {
        let head = s.drop_last();
        let x = s.last();
        lemma_filter_exact(head, rule);
        assert(s =~= head.push(x));
        head.lemma_filter_push(x, rule);
        assert(!head.contains(x)) by {
            if head.contains(x) {
                let k = choose|k: int| 0 <= k < head.len() && head[k] == x;
                assert(s[k] == s[s.len() - 1]);
            }
        }
        assert forall|id: i32| #[trigger] s.filter(rule).contains(id) <==> s.contains(id) && rule(
            id,
        ) by {
            if s.contains(id) {
                let k = choose|k: int| 0 <= k < s.len() && s[k] == id;
                if k < head.len() {
                    assert(head[k] == id);
                    assert(head.contains(id));
                }
            }
            if head.contains(id) {
                let k = choose|k: int| 0 <= k < head.len() && head[k] == id;
                assert(s[k] == id);
            }
            if rule(x) {
                let kept = head.filter(rule);
                assert(kept.push(x)[kept.len() as int] == x);
                if kept.push(x).contains(id) {
                    let k = choose|k: int| 0 <= k < kept.push(x).len() && kept.push(x)[k] == id;
                    if k < kept.len() {
                        assert(kept[k] == id);
                    }
                }
                if kept.contains(id) {
                    let k = choose|k: int| 0 <= k < kept.len() && kept[k] == id;
                    assert(kept.push(x)[k] == id);
                }
            }
        }
        if rule(x) {
            let kept = head.filter(rule);
            assert(!kept.contains(x));
            assert forall|a: int, b: int|
                0 <= a < kept.push(x).len() && 0 <= b < kept.push(x).len() && a
                    != b implies kept.push(x)[a] != kept.push(x)[b] by {
                if a < kept.len() && b < kept.len() {
                } else if a < kept.len() {
                    assert(kept.contains(kept[a]));
                } else if b < kept.len() {
                    assert(kept.contains(kept[b]));
                }
            }
        }
    }
}

/// A broadcast reaches every present player that was seen nearby its centre
/// and is not the one left out, each of them once, and nobody else.
pub proof fn lemma_audience_exact(
    players: Seq<i32>,
    sightings: Seq<Sighting>,
    center: Option<Coords>,
    except: Option<i32>,
)
    requires
        players.no_duplicates(),
    ensures
        spec_audience(players, sightings, center, except).no_duplicates(),
        forall|id: i32| #[trigger]
            spec_audience(players, sightings, center, except).contains(id) <==> players.contains(
                id,
            ) && except != Some(id) && spec_hears(sightings, center, id),
{
    lemma_filter_exact(players, audience_rule(sightings, center, except));
}

/// The characters that a query shows to an observer are the observer and
/// exactly those to whom a broadcast around the observer goes.
pub proof fn lemma_query_matches_broadcast(
    players: Seq<i32>,
    sightings: Seq<Sighting>,
    observer: i32,
    id: i32,
)
    requires
        players.no_duplicates(),
    ensures
        spec_nearby_characters(players, sightings, observer).contains(id) <==> (id == observer
            && players.contains(observer)) || spec_audience(
            players,
            sightings,
            spec_position_of(sightings, observer),
            Some(observer),
        ).contains(id),
{
    lemma_filter_exact(players, company_rule(sightings, observer));
    lemma_audience_exact(
        players,
        sightings,
        spec_position_of(sightings, observer),
        Some(observer),
    );
}

/// Whether two players were seen nearby each other does not depend on which
/// of them asks.
pub proof fn lemma_hears_symmetric(sightings: Seq<Sighting>, a: i32, b: i32)
    ensures
        spec_hears(sightings, spec_position_of(sightings, a), b) == spec_hears(
            sightings,
            spec_position_of(sightings, b),
            a,
        ),
{
}

} // verus!
