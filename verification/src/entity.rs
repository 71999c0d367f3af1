//! The passive data of a zone: its template, its creatures and its items.

use crate::coords::{Coords, Direction};
use vstd::prelude::*;

verus! {

/// The behaviour mode of a spawn template whose creatures stand at the origin
/// and face a fixed way. Every other mode wanders.
pub const FIXED_FACING: i32 = 7;

/// Where, how many and how often one kind of creature regenerates.
#[derive(Clone, Copy, Debug, PartialEq, Eq, Structural)]
pub struct SpawnTemplate {
    /// The creature type, counted from one.
    pub id: i32,
    pub coords: Coords,
    pub amount: i32,
    /// The respawn delay in seconds.
    pub spawn_time: i32,
    pub spawn_type: i32,
}

/// What the static database knows of one creature type.
#[derive(Clone, Copy, Debug, PartialEq, Eq, Structural)]
pub struct CreatureRecord {
    pub hp: i32,
}

/// The immutable description of a zone.
#[derive(Clone, Debug)]
pub struct ZoneTemplate {
    pub width: i32,
    pub height: i32,
    pub hash: u32,
    pub size: u32,
    pub npcs: Vec<SpawnTemplate>,
    /// The tiles that no creature can stand on.
    pub walls: Vec<Coords>,
}

/// One creature of a zone. Its place in the zone's table is its identity.
#[derive(Clone, Copy, Debug, PartialEq, Eq, Structural)]
pub struct Npc {
    pub id: i32,
    pub coords: Coords,
    pub direction: Direction,
    pub spawn_index: usize,
    pub alive: bool,
    pub dead_since: i64,
    pub hp: i32,
    pub max_hp: i32,
}

/// One stack of items lying in a zone.
#[derive(Clone, Copy, Debug, PartialEq, Eq, Structural)]
pub struct Item {
    pub uid: i32,
    pub id: i32,
    pub amount: i32,
    pub coords: Coords,
}

/// What a player's session answered when asked where the player stands:
/// `None` where it did not answer.
#[derive(Clone, Copy, Debug, PartialEq, Eq)]
pub struct Sighting {
    pub player_id: i32,
    pub coords: Option<Coords>,
}

/// The database's record of a creature type, if it has one.
pub open spec fn spec_record_of(db: Seq<CreatureRecord>, id: i32) -> Option<CreatureRecord> {
    if 1 <= id <= db.len() {
        Some(db[id - 1])
    } else {
        None
    }
}

/// The database's record of a creature type, if it has one.
pub fn record_of(db: &Vec<CreatureRecord>, id: i32) -> (r: Option<CreatureRecord>)
    ensures
        r == spec_record_of(db@, id),
{
    if id >= 1 && (id as usize) <= db.len() {
        Some(db[id as usize - 1])
    } else {
        None
    }
}

/// The number of creatures that a spawn template stands for: its amount, or
/// none where the database lacks its creature type.
pub open spec fn spec_instances_of(t: SpawnTemplate, db: Seq<CreatureRecord>) -> nat {
    if spec_record_of(db, t.id).is_some() && t.amount > 0 {
        t.amount as nat
    } else {
        0
    }
}

/// A creature as it is when its zone is first populated: dead, at the zero
/// position, with the full health of its type.
pub open spec fn spec_fresh_npc(
    t: SpawnTemplate,
    spawn_index: usize,
    db: Seq<CreatureRecord>,
    dead_since: i64,
) -> Npc {
    let hp = match spec_record_of(db, t.id) {
        Some(record) => record.hp,
        None => 0i32,
    };
    Npc {
        id: t.id,
        coords: Coords { x: 0, y: 0 },
        direction: Direction::Down,
        spawn_index,
        alive: false,
        dead_since,
        hp,
        max_hp: hp,
    }
}

} // verus!
