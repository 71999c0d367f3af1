//! What a zone and a trade need to know of a player's session.

use crate::coords::Coords;
use vstd::prelude::*;

verus! {

/// The effect that accompanies a player's warp.
#[derive(Clone, Copy, Debug, PartialEq, Eq, Structural)]
pub enum WarpEffect {
    /// The warp shows and sounds like nothing.
    Plain,
    Scroll,
    Admin,
}

/// A warp that a player has been offered and not yet taken.
#[derive(Clone, Copy, Debug, PartialEq, Eq, Structural)]
pub struct WarpSession {
    pub map_id: i32,
    pub coords: Coords,
    pub local: bool,
    pub animation: Option<WarpEffect>,
}

/// The part of a player's session that a trade touches.
#[derive(Clone, Copy, Debug, PartialEq, Eq, Structural)]
pub struct Player {
    /// The player with whom this one is dealing, if any.
    pub interact_player_id: Option<i32>,
    pub trading: bool,
    pub trade_accepted: bool,
}

impl Player {
    /// Ends the trade that the player is in. Returns the partner, whom the
    /// notice of the trade's end names; a player who deals with nobody is
    /// left as it is.
    pub fn cancel_trade(&mut self) -> (partner: Option<i32>)
        ensures
            partner == old(self).interact_player_id,
            partner.is_none() ==> *final(self) == *old(self),
            partner.is_some() ==> *final(self) == (Player {
                interact_player_id: None,
                trading: false,
                trade_accepted: false,
            }),
    {
        let partner = self.interact_player_id;
        if partner.is_some() {
            self.interact_player_id = None;
            self.trading = false;
            self.trade_accepted = false;
        }
        partner
    }
}

} // verus!
