//! Accepting: an invited player accepts, and the inviting player collects
//! the players.

use crate::gamedata::GameData;
use crate::protocol::{copy_players, GameStatus, Player, WsMessage};
use crate::rootrenderingcomponent::RootRenderingComponent;
use vstd::prelude::*;

verus! {

/// An acceptance from client `sender` counts: it comes from another client
/// while this client is the inviting player 1 and still asking.
pub open spec fn play_accept_applies(old: GameData, sender: usize) -> bool {
    sender != old.my_ws_uid && old.my_player_number == 1 && old.game_status == GameStatus::InviteAsking
}

/// The data after client `sender` accepted: when the acceptance counts (see
/// `play_accept_applies`) the new player joins at the end of the list;
/// otherwise nothing changes.
pub open spec fn play_accept_post(old: GameData, new: GameData, sender: usize) -> bool {
    if play_accept_applies(old, sender) {
        &&& new == (GameData { players: new.players, ..old })
        &&& new.players@ == old.players@.push(Player { ws_uid: sender, points: 0 })
    } else {
        new == old
    }
}

/// This client accepts the invitation it was asked; returns the
/// `PlayAccept` message to send. Without an invitation waiting (status
/// `InviteAsked`) nothing changes and nothing is sent.
pub fn div_want_to_play_asked_on_click(rrc: &mut RootRenderingComponent) -> (r: Vec<WsMessage>)
    ensures
        final(rrc).players_and_scores == old(rrc).players_and_scores,
        old(rrc).game_data.game_status == GameStatus::InviteAsked ==> {
            &&& final(rrc).game_data == (GameData {
                game_status: GameStatus::PlayAccepted,
                ..old(rrc).game_data
            })
            &&& r@.len() == 1
            &&& match r@[0] {
                WsMessage::PlayAccept { my_ws_uid, players } => my_ws_uid == old(rrc).game_data.my_ws_uid
                    && players@ == old(rrc).game_data.players@,
                _ => false,
            }
        },
        old(rrc).game_data.game_status != GameStatus::InviteAsked ==> *final(rrc) == *old(rrc) && r@.len()
            == 0,
{
    if rrc.game_data.game_status != GameStatus::InviteAsked {
        return Vec::new();
    }
    rrc.game_data.game_status = GameStatus::PlayAccepted;
    let mut r: Vec<WsMessage> = Vec::new();
    r.push(WsMessage::PlayAccept { my_ws_uid: rrc.game_data.my_ws_uid, players: copy_players(&rrc.game_data.players) });
    r
}

/// Client `my_ws_uid` accepted the invitation. This client's own
/// acceptance, relayed back, changes nothing. Returns whether the acceptance
/// counted (see `play_accept_applies`).
pub fn on_msg_play_accept(rrc: &mut RootRenderingComponent, my_ws_uid: usize) -> (r: bool)
    ensures
        final(rrc).players_and_scores == old(rrc).players_and_scores,
        play_accept_post(old(rrc).game_data, final(rrc).game_data, my_ws_uid),
        my_ws_uid == old(rrc).game_data.my_ws_uid ==> *final(rrc) == *old(rrc),
        r == play_accept_applies(old(rrc).game_data, my_ws_uid),
{
    if my_ws_uid != rrc.game_data.my_ws_uid && rrc.game_data.my_player_number == 1
        && rrc.game_data.game_status == GameStatus::InviteAsking {
        rrc.game_data.players.push(Player { ws_uid: my_ws_uid, points: 0 });
        true
    } else {
        false
    }
}

} // verus!
