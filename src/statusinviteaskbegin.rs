//! Inviting: the inviting player picks a content set, and the others receive
//! the invitation.

use crate::gamedata::{empty_deck, GameData};
use crate::protocol::{GameStatus, Player, WsMessage};
use crate::rootrenderingcomponent::RootRenderingComponent;
use vstd::prelude::*;

verus! {

/// The data after this client invited the others to play `folder`: it is
/// player 1 and the only player so far.
pub open spec fn invite_ask_begin_post(old: GameData, new: GameData, folder: Seq<char>) -> bool {
    &&& new == (GameData {
        players: new.players,
        asked_folder_name: new.asked_folder_name,
        my_player_number: 1,
        game_status: GameStatus::InviteAsking,
        ..old
    })
    &&& new.players@ == seq![Player { ws_uid: old.my_ws_uid, points: 0 }]
    &&& new.asked_folder_name@ == folder
}

/// The data after an invitation from client `sender` to play `folder`
/// arrived: the game is reset, the inviting client is player 1 and this
/// client player 2.
pub open spec fn invite_post(old: GameData, new: GameData, sender: usize, folder: Seq<char>) -> bool {
    &&& new == (GameData {
        vec_cards: new.vec_cards,
        players: new.players,
        content_folder_name: new.content_folder_name,
        asked_folder_name: new.asked_folder_name,
        game_config: new.game_config,
        card_index_of_first_click: 0,
        card_index_of_second_click: 0,
        game_status: GameStatus::InviteAsked,
        my_player_number: 2,
        player_turn: 0,
        ..old
    })
    &&& empty_deck(new.vec_cards@)
    &&& new.players@ == seq![
        Player { ws_uid: sender, points: 0 },
        Player { ws_uid: old.my_ws_uid, points: 0 },
    ]
    &&& new.content_folder_name@ == "alphabet"@
    &&& new.asked_folder_name@ == folder
    &&& new.game_config.is_none()
}

/// This client invites the others to play the content set `folder_name`;
/// returns the `Invite` message to send. Only before any invitation (status
/// `InviteAskBegin`); in any other status nothing changes and nothing is
/// sent.
pub fn div_invite_ask_begin_on_click(rrc: &mut RootRenderingComponent, folder_name: &str) -> (r: Vec<
    WsMessage,
>)
    ensures
        final(rrc).players_and_scores == old(rrc).players_and_scores,
        old(rrc).game_data.game_status == GameStatus::InviteAskBegin ==> {
            &&& invite_ask_begin_post(old(rrc).game_data, final(rrc).game_data, folder_name@)
            &&& r@.len() == 1
            &&& match r@[0] {
                WsMessage::Invite { my_ws_uid, asked_folder_name } => my_ws_uid == old(
                    rrc,
                ).game_data.my_ws_uid && asked_folder_name@ == folder_name@,
                _ => false,
            }
        },
        old(rrc).game_data.game_status != GameStatus::InviteAskBegin ==> *final(rrc) == *old(rrc)
            && r@.len() == 0,
{
    if rrc.game_data.game_status != GameStatus::InviteAskBegin {
        return Vec::new();
    }
    rrc.game_data.my_player_number = 1;
    let mut players: Vec<Player> = Vec::new();
    players.push(Player { ws_uid: rrc.game_data.my_ws_uid, points: 0 });
    rrc.game_data.players = players;
    rrc.game_data.game_status = GameStatus::InviteAsking;
    rrc.game_data.asked_folder_name = folder_name.to_owned();
    let mut r: Vec<WsMessage> = Vec::new();
    r.push(WsMessage::Invite { my_ws_uid: rrc.game_data.my_ws_uid, asked_folder_name: folder_name.to_owned() });
    r
}

/// An invitation from client `my_ws_uid` to play `asked_folder_name`
/// arrived. This client's own invitation, relayed back, changes nothing.
pub fn on_msg_invite(rrc: &mut RootRenderingComponent, my_ws_uid: usize, asked_folder_name: String)
    ensures
        final(rrc).players_and_scores == old(rrc).players_and_scores,
        my_ws_uid == old(rrc).game_data.my_ws_uid ==> *final(rrc) == *old(rrc),
        my_ws_uid != old(rrc).game_data.my_ws_uid ==> invite_post(
            old(rrc).game_data,
            final(rrc).game_data,
            my_ws_uid,
            asked_folder_name@,
        ),
{
    if my_ws_uid == rrc.game_data.my_ws_uid {
        return;
    }
    rrc.reset();
    rrc.game_data.game_status = GameStatus::InviteAsked;
    let mut players: Vec<Player> = Vec::new();
    players.push(Player { ws_uid: my_ws_uid, points: 0 });
    players.push(Player { ws_uid: rrc.game_data.my_ws_uid, points: 0 });
    rrc.game_data.players = players;
    rrc.game_data.my_player_number = 2;
    rrc.game_data.asked_folder_name = asked_folder_name;
    assert(rrc.game_data.players@ =~= seq![
        Player { ws_uid: my_ws_uid, points: 0 },
        Player { ws_uid: old(rrc).game_data.my_ws_uid, points: 0 },
    ]);
}

} // verus!
