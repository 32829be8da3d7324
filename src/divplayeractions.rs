//! What the page shows: a description of the view, computed from the game
//! data alone.

use crate::gamedata::{next_player_turn, next_turn, GameData};
use crate::protocol::GameStatus;
use crate::rootrenderingcomponent::RootRenderingComponent;
use vstd::prelude::*;

verus! {

/// What the player is told to do next.
#[derive(Clone, Copy, Debug, PartialEq, Eq, Structural)]
pub enum PlayerActions {
    /// The connection is lost: offer to reconnect.
    Reconnect,
    /// Offer the content sets to invite for.
    InviteAskBegin,
    /// Offer to start the game; `players_accepted` players accepted so far.
    InviteAsking { players_accepted: usize },
    /// Offer to accept the invitation.
    InviteAsked,
    /// The invitation was accepted; wait for the start.
    PlayAccepted,
    /// Player `player_turn` picks a card; `my_turn` when that is this client.
    PlayCard { player_turn: usize, my_turn: bool },
    /// Player `next_player` is to claim the turn; `my_turn` when that is this
    /// client.
    TakeTurn { next_player: usize, my_turn: bool },
    /// The game is over: offer to play again.
    PlayAgain,
    /// No other case applies.
    Unpredicted,
}

/// The whole page.
#[derive(Clone, Copy, Debug, PartialEq, Eq, Structural)]
pub enum RootView {
    /// Only the error text is shown.
    ErrorText,
    /// The game, with what the player is told to do.
    Game { actions: PlayerActions },
}

/// What the player is told to do, given the game data and whether the
/// connection is open. Once an invitation is under way, a lost connection
/// takes precedence over the game.
pub open spec fn player_actions(gd: GameData, transport_open: bool) -> PlayerActions {
    if gd.game_status != GameStatus::InviteAskBegin && (gd.is_reconnect || !transport_open) {
        PlayerActions::Reconnect
    } else {
        match gd.game_status {
            GameStatus::InviteAskBegin => PlayerActions::InviteAskBegin,
            GameStatus::GameOverPlayAgainBegin => PlayerActions::PlayAgain,
            GameStatus::InviteAsking => PlayerActions::InviteAsking {
                players_accepted: if gd.players@.len() >= 1 {
                    (gd.players@.len() - 1) as usize
                } else {
                    0
                },
            },
            GameStatus::PlayAccepted => PlayerActions::PlayAccepted,
            GameStatus::InviteAsked => PlayerActions::InviteAsked,
            GameStatus::PlayBefore1stCard => PlayerActions::PlayCard {
                player_turn: gd.player_turn,
                my_turn: gd.my_player_number == gd.player_turn,
            },
            GameStatus::PlayBefore2ndCard => PlayerActions::PlayCard {
                player_turn: gd.player_turn,
                my_turn: gd.my_player_number == gd.player_turn,
            },
            GameStatus::TakeTurnBegin => {
                let next = next_turn(gd.player_turn as int, gd.players@.len() as int);
                PlayerActions::TakeTurn { next_player: next as usize, my_turn: gd.my_player_number == next }
            },
            _ => PlayerActions::Unpredicted,
        }
    }
}

/// The page for the game data: the error alone when there is one.
pub open spec fn root_view(gd: GameData, transport_open: bool) -> RootView {
    if gd.error_text is Some {
        RootView::ErrorText
    } else {
        RootView::Game { actions: player_actions(gd, transport_open) }
    }
}

/// What the player is told to do (see `player_actions`).
pub fn div_player_actions_from_game_status(rrc: &RootRenderingComponent, transport_open: bool) -> (r:
    PlayerActions)
    ensures
        r == player_actions(rrc.game_data, transport_open),
{
    let gd = &rrc.game_data;
    if gd.game_status != GameStatus::InviteAskBegin && (gd.is_reconnect || !transport_open) {
        return PlayerActions::Reconnect;
    }
    match gd.game_status {
        GameStatus::InviteAskBegin => PlayerActions::InviteAskBegin,
        GameStatus::GameOverPlayAgainBegin => PlayerActions::PlayAgain,
        GameStatus::InviteAsking => PlayerActions::InviteAsking {
            players_accepted: if gd.players.len() >= 1 {
                gd.players.len() - 1
            } else {
                0
            },
        },
        GameStatus::PlayAccepted => PlayerActions::PlayAccepted,
        GameStatus::InviteAsked => PlayerActions::InviteAsked,
        GameStatus::PlayBefore1stCard | GameStatus::PlayBefore2ndCard => PlayerActions::PlayCard {
            player_turn: gd.player_turn,
            my_turn: gd.my_player_number == gd.player_turn,
        },
        GameStatus::TakeTurnBegin => {
            let next = next_player_turn(gd.player_turn, gd.players.len());
            PlayerActions::TakeTurn { next_player: next, my_turn: gd.my_player_number == next }
        },
        _ => PlayerActions::Unpredicted,
    }
}

/// The page for the current data (see `root_view`). It reads the data only,
/// so two calls on the same data give the same page.
pub fn project(rrc: &RootRenderingComponent, transport_open: bool) -> (r: RootView)
    ensures
        r == root_view(rrc.game_data, transport_open),
{
    if rrc.game_data.error_text.is_some() {
        RootView::ErrorText
    } else {
        RootView::Game { actions: div_player_actions_from_game_status(rrc, transport_open) }
    }
}

} // verus!
