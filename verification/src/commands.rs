//! The commands that a zone answers, one at a time and in the order of their
//! arrival. A command changes the zone's own tables and says what is to be
//! sent to whom; the sending is the caller's.

use crate::coords::{Coords, Direction};
use crate::entity::{Item, Sighting};
use crate::player::WarpEffect;
use crate::visibility::{
    audience, nearby_characters, nearby_items, nearby_npcs, position_of, spec_audience,
    spec_nearby_characters, spec_nearby_items, spec_nearby_npcs, spec_position_of, NpcInfo,
};
use crate::zone::Zone;
use vstd::prelude::*;

verus! {

/// One request to a zone.
#[derive(Clone, Copy, Debug, PartialEq, Eq, Structural)]
pub enum Command {
    /// A player's session is gone; `coords` is where the player last stood.
    DropPlayer { player_id: i32, coords: Coords },
    Enter { player_id: i32 },
    Face { player_id: i32, direction: Direction },
    GetCharacterMapInfo { player_id: i32 },
    GetHashAndSize,
    GetNearbyInfo { player_id: i32 },
    Leave { player_id: i32, warp_animation: Option<WarpEffect> },
    Serialize,
}

/// What a broadcast tells its recipients.
#[derive(Clone, Copy, Debug, PartialEq, Eq, Structural)]
pub enum Notice {
    Join { player_id: i32 },
    Remove { player_id: i32, warp_animation: Option<WarpEffect> },
    Face { player_id: i32, direction: Direction },
}

/// Why a command was not carried out.
#[derive(Clone, Copy, Debug, PartialEq, Eq, Structural)]
pub enum ZoneError {
    /// The player is not in this zone.
    NotFound { player_id: i32 },
}

/// What an observer sees.
#[derive(Clone, Debug)]
pub struct NearbyInfo {
    pub items: Vec<Item>,
    pub npcs: Vec<NpcInfo>,
    pub characters: Vec<i32>,
}

/// What the caller is to do after a command.
#[derive(Clone, Debug)]
pub enum Outcome {
    /// Send `notice` to each of `recipients`, and confirm the command to its
    /// sender where `acknowledge` is set.
    Broadcast { recipients: Vec<i32>, notice: Notice, acknowledge: bool },
    /// Ask this player's session for its public snapshot and answer with it.
    CharacterMapInfo { player_id: i32 },
    HashAndSize { hash: u32, size: u32 },
    Nearby { info: NearbyInfo },
    /// Answer with the template in its persisted form.
    Template,
}

/// Whether `r` is a broadcast of `notice` to exactly `recipients`.
pub open spec fn spec_is_broadcast(
    r: Result<Outcome, ZoneError>,
    recipients: Seq<i32>,
    notice: Notice,
    acknowledge: bool,
) -> bool {
    match r {
        Ok(Outcome::Broadcast { recipients: to, notice: n, acknowledge: a }) => to@ == recipients
            && n == notice && a == acknowledge,
        _ => false,
    }
}

/// Whether two states of a zone differ in nothing but the table of players.
pub open spec fn spec_same_but_players(pre: Zone, post: Zone) -> bool {
    &&& post.template == pre.template
    &&& post.creatures == pre.creatures
    &&& post.instant_spawn == pre.instant_spawn
    &&& post.items == pre.items
    &&& post.npcs == pre.npcs
}

/// The table of players without `player_id`, the others in their order.
pub open spec fn spec_without(players: Seq<i32>, player_id: i32) -> Seq<i32> {
    players.remove(players.index_of(player_id))
}

/// Enter: the joiner is told to everybody who was seen nearby the joiner,
/// and is present afterwards.
pub open spec fn spec_entered(
    pre: Zone,
    post: Zone,
    sightings: Seq<Sighting>,
    player_id: i32,
    r: Result<Outcome, ZoneError>,
) -> bool {
    &&& spec_same_but_players(pre, post)
    &&& post.players@ == if pre.players@.contains(player_id) {
        pre.players@
    } else {
        pre.players@.push(player_id)
    }
    &&& spec_is_broadcast(
        r,
        spec_audience(pre.players@, sightings, spec_position_of(sightings, player_id), None),
        Notice::Join { player_id },
        false,
    )
}

/// Leave and DropPlayer: a present player is taken out of the table, and
/// the removal is told to everybody left who was seen nearby `center`. For a
/// player who is not present nothing changes and the command fails.
pub open spec fn spec_removed(
    pre: Zone,
    post: Zone,
    sightings: Seq<Sighting>,
    player_id: i32,
    center: Option<Coords>,
    warp_animation: Option<WarpEffect>,
    acknowledge: bool,
    r: Result<Outcome, ZoneError>,
) -> bool {
    if pre.players@.contains(player_id) {
        &&& spec_same_but_players(pre, post)
        &&& post.players@ == spec_without(pre.players@, player_id)
        &&& !post.players@.contains(player_id)
        &&& spec_is_broadcast(
            r,
            spec_audience(post.players@, sightings, center, None),
            Notice::Remove { player_id, warp_animation },
            acknowledge,
        )
    } else {
        post == pre && r == Err::<Outcome, ZoneError>(ZoneError::NotFound { player_id })
    }
}

/// Face: the new facing of a present player is told to everybody else who
/// was seen nearby the player.
pub open spec fn spec_faced(
    pre: Zone,
    post: Zone,
    sightings: Seq<Sighting>,
    player_id: i32,
    direction: Direction,
    r: Result<Outcome, ZoneError>,
) -> bool {
    &&& post == pre
    &&& if pre.players@.contains(player_id) {
        spec_is_broadcast(
            r,
            spec_audience(
                pre.players@,
                sightings,
                spec_position_of(sightings, player_id),
                Some(player_id),
            ),
            Notice::Face { player_id, direction },
            false,
        )
    } else {
        r == Err::<Outcome, ZoneError>(ZoneError::NotFound { player_id })
    }
}

/// GetNearbyInfo: a present observer is shown the items and living
/// creatures nearby where the observer was seen, and the characters nearby,
/// the observer among them.
pub open spec fn spec_looked(
    pre: Zone,
    post: Zone,
    sightings: Seq<Sighting>,
    player_id: i32,
    r: Result<Outcome, ZoneError>,
) -> bool {
    &&& post == pre
    &&& if pre.players@.contains(player_id) {
        match r {
            Ok(Outcome::Nearby { info }) => {
                let center = spec_position_of(sightings, player_id);
                &&& info.items@ == spec_nearby_items(pre.items@, center)
                &&& info.npcs@ == spec_nearby_npcs(pre.npcs@, center)
                &&& info.characters@ == spec_nearby_characters(pre.players@, sightings, player_id)
            },
            _ => false,
        }
    } else {
        r == Err::<Outcome, ZoneError>(ZoneError::NotFound { player_id })
    }
}

/// GetCharacterMapInfo: the caller is sent to the session of a present
/// player.
pub open spec fn spec_asked(
    pre: Zone,
    post: Zone,
    player_id: i32,
    r: Result<Outcome, ZoneError>,
) -> bool {
    &&& post == pre
    &&& if pre.players@.contains(player_id) {
        r == Ok::<Outcome, ZoneError>(Outcome::CharacterMapInfo { player_id })
    } else {
        r == Err::<Outcome, ZoneError>(ZoneError::NotFound { player_id })
    }
}

/// What a command makes of a zone, and what it answers.
pub open spec fn spec_handled(
    pre: Zone,
    post: Zone,
    command: Command,
    sightings: Seq<Sighting>,
    r: Result<Outcome, ZoneError>,
) -> bool {
    match command {
        Command::DropPlayer { player_id, coords } => spec_removed(
            pre,
            post,
            sightings,
            player_id,
            Some(coords),
            None,
            false,
            r,
        ),
        Command::Enter { player_id } => spec_entered(pre, post, sightings, player_id, r),
        Command::Face { player_id, direction } => spec_faced(
            pre,
            post,
            sightings,
            player_id,
            direction,
            r,
        ),
        Command::GetCharacterMapInfo { player_id } => spec_asked(pre, post, player_id, r),
        Command::GetHashAndSize => post == pre && r == Ok::<Outcome, ZoneError>(
            Outcome::HashAndSize { hash: pre.template.hash, size: pre.template.size },
        ),
        Command::GetNearbyInfo { player_id } => spec_looked(pre, post, sightings, player_id, r),
        Command::Leave { player_id, warp_animation } => spec_removed(
            pre,
            post,
            sightings,
            player_id,
            spec_position_of(sightings, player_id),
            warp_animation,
            true,
            r,
        ),
        Command::Serialize => post == pre && r == Ok::<Outcome, ZoneError>(Outcome::Template),
    }
}

impl Zone {
    /// The place of a player in the table, if the player is present.
    pub fn find_player(&self, player_id: i32) -> (r: Option<usize>)
        ensures
            match r {
                Some(i) => i < self.players@.len() && self.players@[i as int] == player_id,
                None => !self.players@.contains(player_id),
            },
    {
        let mut i: usize = 0;
        while i < self.players.len()
            invariant
                i <= self.players.len(),
                forall|k: int| 0 <= k < i ==> self.players@[k] != player_id,
            decreases self.players.len() - i,
        {
            if self.players[i] == player_id {
                return Some(i);
            }
            i = i + 1;
        }
        None
    }

    /// Lets a player in and tells everybody nearby.
    pub fn enter(&mut self, player_id: i32, sightings: &Vec<Sighting>) -> (r: Result<
        Outcome,
        ZoneError,
    >)
        requires
            old(self).wf(),
        ensures
            final(self).wf(),
            spec_entered(*old(self), *final(self), sightings@, player_id, r),
    {
        let center = position_of(sightings, player_id);
        let recipients = audience(&self.players, sightings, center, None);
        if self.find_player(player_id).is_none() {
            self.players.push(player_id);
        }
        Ok(Outcome::Broadcast { recipients, notice: Notice::Join { player_id }, acknowledge: false })
    }

    /// Takes a present player out of the table and tells everybody left who
    /// was seen nearby `center`.
    pub fn remove_player(
        &mut self,
        player_id: i32,
        center: Option<Coords>,
        warp_animation: Option<WarpEffect>,
        acknowledge: bool,
        sightings: &Vec<Sighting>,
    ) -> (r: Result<Outcome, ZoneError>)
        requires
            old(self).wf(),
        ensures
            final(self).wf(),
            spec_removed(
                *old(self),
                *final(self),
                sightings@,
                player_id,
                center,
                warp_animation,
                acknowledge,
                r,
            ),
    {
        match self.find_player(player_id) {
            Some(i) => {
                let ghost before = self.players@;
                assert(before.contains(player_id));
                assert(before.index_of(player_id) == i);
                self.players.remove(i);
                assert(self.players@.no_duplicates()) by {
                    assert forall|a: int, b: int|
                        0 <= a < self.players@.len() && 0 <= b < self.players@.len() && a
                            != b implies self.players@[a] != self.players@[b] by {
                        let a0 = if a < i {
                            a
                        } else {
                            a + 1
                        };
                        let b0 = if b < i {
                            b
                        } else {
                            b + 1
                        };
                        assert(self.players@[a] == before[a0]);
                        assert(self.players@[b] == before[b0]);
                    }
                }
                assert(!self.players@.contains(player_id)) by {
                    if self.players@.contains(player_id) {
                        let a = choose|a: int|
                            0 <= a < self.players@.len() && self.players@[a] == player_id;
                        let a0 = if a < i {
                            a
                        } else {
                            a + 1
                        };
                        assert(before[a0] == before[i as int]);
                    }
                }
                let recipients = audience(&self.players, sightings, center, None);
                Ok(
                    Outcome::Broadcast {
                        recipients,
                        notice: Notice::Remove { player_id, warp_animation },
                        acknowledge,
                    },
                )
            },
            None => Err(ZoneError::NotFound { player_id }),
        }
    }

    /// Tells everybody nearby a present player, but the player, which way
    /// the player now faces.
    pub fn face(&self, player_id: i32, direction: Direction, sightings: &Vec<Sighting>) -> (r:
        Result<Outcome, ZoneError>)
        ensures
            spec_faced(*self, *self, sightings@, player_id, direction, r),
    {
        match self.find_player(player_id) {
            Some(_) => {
                let center = position_of(sightings, player_id);
                let recipients = audience(&self.players, sightings, center, Some(player_id));
                Ok(
                    Outcome::Broadcast {
                        recipients,
                        notice: Notice::Face { player_id, direction },
                        acknowledge: false,
                    },
                )
            },
            None => Err(ZoneError::NotFound { player_id }),
        }
    }

    /// Gathers what a present observer sees.
    pub fn get_nearby_info(&self, player_id: i32, sightings: &Vec<Sighting>) -> (r: Result<
        Outcome,
        ZoneError,
    >)
        ensures
            spec_looked(*self, *self, sightings@, player_id, r),
    {
        match self.find_player(player_id) {
            Some(_) => {
                let center = position_of(sightings, player_id);
                let info = NearbyInfo {
                    items: nearby_items(&self.items, center),
                    npcs: nearby_npcs(&self.npcs, center),
                    characters: nearby_characters(&self.players, sightings, player_id),
                };
                Ok(Outcome::Nearby { info })
            },
            None => Err(ZoneError::NotFound { player_id }),
        }
    }

    /// Carries out one command. `sightings` holds, for every present player
    /// and for the player that the command names, where the player's
    /// session says the player stands.
    pub fn handle_command(&mut self, command: Command, sightings: &Vec<Sighting>) -> (r: Result<
        Outcome,
        ZoneError,
    >)
        requires
            old(self).wf(),
        ensures
            final(self).wf(),
            spec_handled(*old(self), *final(self), command, sightings@, r),
    {
        match command {
            Command::DropPlayer { player_id, coords } => self.remove_player(
                player_id,
                Some(coords),
                None,
                false,
                sightings,
            ),
            Command::Enter { player_id } => self.enter(player_id, sightings),
            Command::Face { player_id, direction } => self.face(player_id, direction, sightings),
            Command::GetCharacterMapInfo { player_id } => match self.find_player(player_id) {
                Some(_) => Ok(Outcome::CharacterMapInfo { player_id }),
                None => Err(ZoneError::NotFound { player_id }),
            },
            Command::GetHashAndSize => Ok(
                Outcome::HashAndSize { hash: self.template.hash, size: self.template.size },
            ),
            Command::GetNearbyInfo { player_id } => self.get_nearby_info(player_id, sightings),
            Command::Leave { player_id, warp_animation } => {
                let center = position_of(sightings, player_id);
                self.remove_player(player_id, center, warp_animation, true, sightings)
            },
            Command::Serialize => Ok(Outcome::Template),
        }
    }
}

/// No command touches the creatures, the items or the template of a zone.
pub proof fn lemma_commands_keep_creatures(
    pre: Zone,
    post: Zone,
    command: Command,
    sightings: Seq<Sighting>,
    r: Result<Outcome, ZoneError>,
)
    requires
        spec_handled(pre, post, command, sightings, r),
    ensures
        spec_same_but_players(pre, post),
{
}

/// A command that names a player who is not present fails with `NotFound`
/// and leaves the zone as it was, unless it is the player's entry.
pub proof fn lemma_absent_player_not_found(
    pre: Zone,
    post: Zone,
    command: Command,
    sightings: Seq<Sighting>,
    r: Result<Outcome, ZoneError>,
    player_id: i32,
)
    requires
        spec_handled(pre, post, command, sightings, r),
        !pre.players@.contains(player_id),
        command matches Command::DropPlayer { player_id: p, .. } ==> p == player_id,
        command matches Command::Face { player_id: p, .. } ==> p == player_id,
        command matches Command::GetCharacterMapInfo { player_id: p } ==> p == player_id,
        command matches Command::GetNearbyInfo { player_id: p } ==> p == player_id,
        command matches Command::Leave { player_id: p, .. } ==> p == player_id,
        !(command is Enter),
        !(command is GetHashAndSize),
        !(command is Serialize),
    ensures
        post == pre,
        r == Err::<Outcome, ZoneError>(ZoneError::NotFound { player_id }),
{
}

} // verus!
