//! The score panel's cache of the game data it shows.

use crate::gamedata::GameData;
use vstd::prelude::*;

verus! {

/// The score panel: a copy of the game data it shows, so that it is drawn
/// again only when that data changes.
#[derive(Clone, Copy, Debug, PartialEq, Eq, Structural)]
pub struct PlayersAndScores {
    /// The number of the player in turn.
    pub player_turn: usize,
    /// This client's points.
    pub my_points: usize,
    /// This client's player number.
    pub my_player_number: usize,
}

/// The panel's copy of `game_data`. This client's points are known only
/// when its player number names a player.
pub open spec fn cache_of(old: PlayersAndScores, game_data: GameData) -> PlayersAndScores {
    PlayersAndScores {
        player_turn: game_data.player_turn,
        my_points: if 1 <= game_data.my_player_number <= game_data.players@.len() {
            game_data.players@[game_data.my_player_number - 1].points
        } else {
            old.my_points
        },
        my_player_number: game_data.my_player_number,
    }
}

impl PlayersAndScores {
    /// An empty panel.
    pub fn new() -> (r: PlayersAndScores)
        ensures
            r == (PlayersAndScores { player_turn: 0, my_points: 0, my_player_number: 1 }),
    {
        PlayersAndScores { my_points: 0, my_player_number: 1, player_turn: 0 }
    }

    /// Copies the shown data from `game_data`; returns whether anything
    /// changed, that is whether the panel must be drawn again.
    pub fn update_intern_cache(&mut self, game_data: &GameData) -> (r: bool)
        ensures
            *final(self) == cache_of(*old(self), *game_data),
            r == (*final(self) != *old(self)),
    {
        let mut is_invalidated = false;
        if game_data.my_player_number > 0 && game_data.my_player_number <= game_data.players.len()
            && self.my_points != game_data.players[game_data.my_player_number - 1].points {
            self.my_points = game_data.players[game_data.my_player_number - 1].points;
            is_invalidated = true;
        }
        if self.my_player_number != game_data.my_player_number {
            self.my_player_number = game_data.my_player_number;
            is_invalidated = true;
        }
        if self.player_turn != game_data.player_turn {
            self.player_turn = game_data.player_turn;
            is_invalidated = true;
        }
        is_invalidated
    }
}

} // verus!
