//! Inbound messages and the state of the connection.

use crate::gamedata::GameData;
use crate::protocol::{sender_of, GameStatus, WsMessage};
use crate::rootrenderingcomponent::{game_data_init_post, ws_uid_post, RootRenderingComponent};
use crate::statusinviteaskbegin::{invite_post, on_msg_invite};
use crate::statusplaybefore1stcard::{msg_click_1st_applies, msg_click_1st_post, on_msg_player_click_1st_card};
use crate::statusplaybefore2ndcard::{msg_click_2nd_applies, msg_click_2nd_post, on_msg_play_again, on_msg_player_click_2nd_card};
use crate::statustaketurnbegin::{msg_take_turn_end_post, picks_in_deck, on_msg_take_turn_begin, on_msg_take_turn_end};
use crate::statuswanttoplayasked::{on_msg_play_accept, play_accept_applies, play_accept_post};
use vstd::prelude::*;

verus! {

/// What became of an inbound message.
#[derive(Clone, Copy, Debug, PartialEq, Eq, Structural)]
pub enum MsgOutcome {
    /// It was handed to its transition, which applied it.
    Applied,
    /// It does not fit the current state: its transition left the state
    /// unchanged.
    Rejected,
    /// It is this client's own message, relayed back: dropped.
    Echo,
    /// It needs nothing from this client: dropped.
    Ignored,
    /// It could not be decoded: dropped.
    Malformed,
}

/// The game data after the inbound message `m`, from another client, was
/// handled.
pub open spec fn received_post(old: GameData, new: GameData, m: WsMessage) -> bool {
    match m {
        WsMessage::Dummy { .. } => new == old,
        WsMessage::RequestWsUid { .. } => new == old,
        WsMessage::ResponseWsUid { your_ws_uid } => ws_uid_post(old, new, your_ws_uid),
        WsMessage::Invite { my_ws_uid, asked_folder_name } => invite_post(
            old,
            new,
            my_ws_uid,
            asked_folder_name@,
        ),
        WsMessage::PlayAccept { my_ws_uid, .. } => play_accept_post(old, new, my_ws_uid),
        WsMessage::GameDataInit { card_grid_data, game_config, players } => game_data_init_post(
            old,
            new,
            card_grid_data@,
            game_config,
            players@,
        ),
        WsMessage::PlayerClick1stCard { game_status, card_index_of_first_click, .. } => msg_click_1st_post(
            old,
            new,
            game_status,
            card_index_of_first_click,
        ),
        WsMessage::PlayerClick2ndCard { game_status, card_index_of_second_click, .. } => msg_click_2nd_post(
            old,
            new,
            game_status,
            card_index_of_second_click,
        ),
        WsMessage::TakeTurnBegin { .. } => new == (GameData {
            game_status: GameStatus::TakeTurnBegin,
            ..old
        }),
        WsMessage::GameOverPlayAgainBegin { .. } => new == (GameData {
            game_status: GameStatus::GameOverPlayAgainBegin,
            ..old
        }),
        WsMessage::TakeTurnEnd { .. } => msg_take_turn_end_post(old, new),
    }
}

/// A message from another client that does not fit the state `gd`: its
/// transition leaves the state unchanged.
pub open spec fn rejected(gd: GameData, m: WsMessage) -> bool {
    match m {
        WsMessage::PlayAccept { my_ws_uid, .. } => !play_accept_applies(gd, my_ws_uid),
        WsMessage::PlayerClick1stCard { game_status, card_index_of_first_click, .. } => !msg_click_1st_applies(
            gd,
            game_status,
            card_index_of_first_click,
        ),
        WsMessage::PlayerClick2ndCard { game_status, card_index_of_second_click, .. } => !msg_click_2nd_applies(
            gd,
            game_status,
            card_index_of_second_click,
        ),
        WsMessage::TakeTurnEnd { .. } => !picks_in_deck(gd),
        _ => false,
    }
}

/// The messages that need nothing from this client.
pub open spec fn needs_nothing(m: WsMessage) -> bool {
    m is Dummy || m is RequestWsUid
}

/// Handles an inbound message; `None` stands for one that could not be
/// decoded. Such a message, and this client's own message relayed back,
/// change nothing. Any other message goes to the transition of its kind
/// (see `received_post`); when it does not fit the state (see `rejected`) it
/// changes nothing and the outcome says so, for the caller to log. Nothing is
/// sent in reply.
pub fn receive_ws_message(rrc: &mut RootRenderingComponent, msg: Option<WsMessage>) -> (r: MsgOutcome)
    ensures
        final(rrc).players_and_scores == old(rrc).players_and_scores,
        msg is None ==> r == MsgOutcome::Malformed && *final(rrc) == *old(rrc),
        msg is Some && sender_of(msg.unwrap()) == Some(old(rrc).game_data.my_ws_uid) ==> r
            == MsgOutcome::Echo && *final(rrc) == *old(rrc),
        msg is Some && sender_of(msg.unwrap()) != Some(old(rrc).game_data.my_ws_uid) ==> {
            &&& received_post(old(rrc).game_data, final(rrc).game_data, msg.unwrap())
            &&& r == if needs_nothing(msg.unwrap()) {
                MsgOutcome::Ignored
            } else if rejected(old(rrc).game_data, msg.unwrap()) {
                MsgOutcome::Rejected
            } else {
                MsgOutcome::Applied
            }
        },
{
    let m = match msg {
        None => return MsgOutcome::Malformed,
        Some(m) => m,
    };
    if m.sender() == Some(rrc.game_data.my_ws_uid) {
        return MsgOutcome::Echo;
    }
    match m {
        WsMessage::Dummy { .. } => MsgOutcome::Ignored,
        WsMessage::RequestWsUid { .. } => MsgOutcome::Ignored,
        WsMessage::ResponseWsUid { your_ws_uid } => {
            rrc.on_response_ws_uid(your_ws_uid);
            MsgOutcome::Applied
        },
        WsMessage::Invite { my_ws_uid, asked_folder_name } => {
            on_msg_invite(rrc, my_ws_uid, asked_folder_name);
            MsgOutcome::Applied
        },
        WsMessage::PlayAccept { my_ws_uid, .. } => {
            if on_msg_play_accept(rrc, my_ws_uid) {
                MsgOutcome::Applied
            } else {
                MsgOutcome::Rejected
            }
        },
        WsMessage::GameDataInit { card_grid_data, game_config, players } => {
            rrc.on_msg_game_data_init(card_grid_data, game_config, players);
            MsgOutcome::Applied
        },
        WsMessage::PlayerClick1stCard { game_status, card_index_of_first_click, .. } => {
            if on_msg_player_click_1st_card(rrc, game_status, card_index_of_first_click) {
                MsgOutcome::Applied
            } else {
                MsgOutcome::Rejected
            }
        },
        WsMessage::PlayerClick2ndCard { game_status, card_index_of_second_click, .. } => {
            if on_msg_player_click_2nd_card(rrc, game_status, card_index_of_second_click) {
                MsgOutcome::Applied
            } else {
                MsgOutcome::Rejected
            }
        },
        WsMessage::TakeTurnBegin { .. } => {
            on_msg_take_turn_begin(rrc);
            MsgOutcome::Applied
        },
        WsMessage::GameOverPlayAgainBegin { .. } => {
            on_msg_play_again(rrc);
            MsgOutcome::Applied
        },
        WsMessage::TakeTurnEnd { .. } => {
            if on_msg_take_turn_end(rrc) {
                MsgOutcome::Applied
            } else {
                MsgOutcome::Rejected
            }
        },
    }
}

/// The connection was lost: the game asks the player to reconnect. Nothing
/// else changes.
pub fn on_ws_close(rrc: &mut RootRenderingComponent)
    ensures
        final(rrc).players_and_scores == old(rrc).players_and_scores,
        final(rrc).game_data == (GameData { is_reconnect: true, ..old(rrc).game_data }),
{
    rrc.game_data.is_reconnect = true;
}

/// The player reconnected: the game goes on where it stood.
pub fn on_reconnect(rrc: &mut RootRenderingComponent)
    ensures
        final(rrc).players_and_scores == old(rrc).players_and_scores,
        final(rrc).game_data == (GameData { is_reconnect: false, ..old(rrc).game_data }),
{
    rrc.game_data.is_reconnect = false;
}

} // verus!
