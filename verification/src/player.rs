//! The whole-player filter: the slice of the statistics that covers every
//! classified record.

use vstd::prelude::*;

use crate::gamedata::{GameData, GameDataV};
use crate::parsable_enum::GameDataCondition;

verus! {

/// The unconditional filter, for overall statistics.
pub enum Player {
    Player,
}

impl GameDataCondition for Player {
    open spec fn spec_condition(&self, game: GameDataV) -> bool {
        true
    }

    fn game_data_condition(&self, game: &GameData) -> (r: bool) {
        true
    }
}

} // verus!
