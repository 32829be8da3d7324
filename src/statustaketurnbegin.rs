//! Handing the turn over after a pair that did not match.

use crate::gamedata::{next_player_turn, next_turn, GameData};
use crate::protocol::{copy_players, CardStatusCardFace, GameStatus, WsMessage};
use crate::rootrenderingcomponent::RootRenderingComponent;
use crate::statusplaybefore1stcard::{click_1st_outcome, with_face};
use crate::statusplaybefore2ndcard::click_2nd_outcome;
use vstd::prelude::*;

verus! {

/// The data after the turn passed on: the next player in the rotation is in
/// turn, both picked cards lie face down again, the picks are cleared and
/// the status waits for a first pick.
pub open spec fn take_turn_end_post(old: GameData, new: GameData) -> bool {
    let x1 = old.card_index_of_first_click as int;
    let x2 = old.card_index_of_second_click as int;
    let cards = old.vec_cards@;
    let once = cards.update(x1, with_face(cards[x1], CardStatusCardFace::Down));
    &&& new == (GameData {
        vec_cards: new.vec_cards,
        player_turn: next_turn(old.player_turn as int, old.players@.len() as int) as usize,
        card_index_of_first_click: 0,
        card_index_of_second_click: 0,
        game_status: GameStatus::PlayBefore1stCard,
        ..old
    })
    &&& new.vec_cards@ == once.update(x2, with_face(once[x2], CardStatusCardFace::Down))
}

/// Both picks name cards of the deck.
pub open spec fn picks_in_deck(gd: GameData) -> bool {
    &&& gd.card_index_of_first_click < gd.vec_cards@.len()
    &&& gd.card_index_of_second_click < gd.vec_cards@.len()
}

/// This client may claim the turn: the turn is to be handed over, this
/// client is the next player in the rotation, and the picks name cards of
/// the deck.
pub open spec fn can_take_turn(gd: GameData) -> bool {
    &&& gd.game_status == GameStatus::TakeTurnBegin
    &&& gd.my_player_number == next_turn(gd.player_turn as int, gd.players@.len() as int)
    &&& picks_in_deck(gd)
}

/// The data after a peer claimed the turn: handed over when the picks name
/// cards of the deck; otherwise ignored.
pub open spec fn msg_take_turn_end_post(old: GameData, new: GameData) -> bool {
    if picks_in_deck(old) {
        take_turn_end_post(old, new)
    } else {
        new == old
    }
}

/// This client claims the turn. When it may not (see `can_take_turn`),
/// nothing changes and nothing is sent; otherwise the turn passes on and the
/// returned `TakeTurnEnd` message tells the others.
pub fn div_take_turn_begin_on_click(rrc: &mut RootRenderingComponent) -> (r: Vec<WsMessage>)
    ensures
        final(rrc).players_and_scores == old(rrc).players_and_scores,
        can_take_turn(old(rrc).game_data) ==> {
            &&& take_turn_end_post(old(rrc).game_data, final(rrc).game_data)
            &&& r@.len() == 1
            &&& match r@[0] {
                WsMessage::TakeTurnEnd { my_ws_uid, players } => my_ws_uid == old(rrc).game_data.my_ws_uid
                    && players@ == old(rrc).game_data.players@,
                _ => false,
            }
        },
        !can_take_turn(old(rrc).game_data) ==> *final(rrc) == *old(rrc) && r@.len() == 0,
{
    let gd = &rrc.game_data;
    if gd.game_status != GameStatus::TakeTurnBegin || gd.my_player_number != next_player_turn(
        gd.player_turn,
        gd.players.len(),
    ) || gd.card_index_of_first_click >= gd.vec_cards.len() || gd.card_index_of_second_click
        >= gd.vec_cards.len() {
        return Vec::new();
    }
    let mut r: Vec<WsMessage> = Vec::new();
    r.push(WsMessage::TakeTurnEnd { my_ws_uid: rrc.game_data.my_ws_uid, players: copy_players(&rrc.game_data.players) });
    take_turn_end(rrc);
    r
}

/// Hands the turn to the next player (see `take_turn_end_post`).
pub fn take_turn_end(rrc: &mut RootRenderingComponent)
    requires
        picks_in_deck(old(rrc).game_data),
    ensures
        final(rrc).players_and_scores == old(rrc).players_and_scores,
        take_turn_end_post(old(rrc).game_data, final(rrc).game_data),
{
    rrc.game_data.player_turn = next_player_turn(rrc.game_data.player_turn, rrc.game_data.players.len());
    let x1 = rrc.game_data.card_index_of_first_click;
    let x2 = rrc.game_data.card_index_of_second_click;
    rrc.game_data.vec_cards[x1].status = CardStatusCardFace::Down;
    rrc.game_data.vec_cards[x2].status = CardStatusCardFace::Down;
    rrc.game_data.card_index_of_first_click = 0;
    rrc.game_data.card_index_of_second_click = 0;
    rrc.game_data.game_status = GameStatus::PlayBefore1stCard;
}

/// A peer claimed the turn. Returns whether it was handed over (see
/// `msg_take_turn_end_post`).
pub fn on_msg_take_turn_end(rrc: &mut RootRenderingComponent) -> (r: bool)
    ensures
        final(rrc).players_and_scores == old(rrc).players_and_scores,
        msg_take_turn_end_post(old(rrc).game_data, final(rrc).game_data),
        r == picks_in_deck(old(rrc).game_data),
{
    if rrc.game_data.card_index_of_first_click < rrc.game_data.vec_cards.len()
        && rrc.game_data.card_index_of_second_click < rrc.game_data.vec_cards.len() {
        take_turn_end(rrc);
        true
    } else {
        false
    }
}

/// A peer's pair did not match: the turn is to be handed over.
pub fn on_msg_take_turn_begin(rrc: &mut RootRenderingComponent)
    ensures
        final(rrc).players_and_scores == old(rrc).players_and_scores,
        final(rrc).game_data == (GameData { game_status: GameStatus::TakeTurnBegin, ..old(rrc).game_data }),
{
    rrc.game_data.game_status = GameStatus::TakeTurnBegin;
}

} // verus!

verus! {

/// The shape of the picks during play: none at the start of a turn, only the
/// first while the second is awaited, both while the turn is to be handed
/// over; picks name dealt cards, and a player is in turn.
pub open spec fn play_shape(gd: GameData) -> bool {
    let n = gd.vec_cards@.len();
    &&& 1 <= gd.player_turn <= gd.players@.len()
    &&& gd.game_status == GameStatus::PlayBefore1stCard ==> gd.card_index_of_first_click == 0
        && gd.card_index_of_second_click == 0
    &&& gd.game_status == GameStatus::PlayBefore2ndCard ==> 1 <= gd.card_index_of_first_click < n
        && gd.card_index_of_second_click == 0
    &&& gd.game_status == GameStatus::TakeTurnBegin ==> 1 <= gd.card_index_of_first_click < n && 1
        <= gd.card_index_of_second_click < n
}

/// A local first pick keeps the shape of the picks.
pub proof fn lemma_click_1st_keeps_shape(old: GameData, new: GameData, i: usize, r: Seq<WsMessage>)
    requires
        play_shape(old),
        click_1st_outcome(old, new, i, r),
    ensures
        play_shape(new),
{
}

/// A local second pick keeps the shape of the picks.
pub proof fn lemma_click_2nd_keeps_shape(old: GameData, new: GameData, i: usize, r: Seq<WsMessage>)
    requires
        play_shape(old),
        click_2nd_outcome(old, new, i, r),
    ensures
        play_shape(new),
{
}

/// Handing the turn over keeps the shape of the picks, and the turn stays
/// with a player of the list.
pub proof fn lemma_take_turn_keeps_shape(old: GameData, new: GameData)
    requires
        play_shape(old),
        picks_in_deck(old),
        old.players@.len() <= usize::MAX,
        take_turn_end_post(old, new),
    ensures
        play_shape(new),
{
}

} // verus!
