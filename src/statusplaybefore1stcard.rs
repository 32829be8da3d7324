//! The first pick of a turn.

use crate::gamedata::GameData;
use crate::protocol::{copy_cards, copy_players, payload, Card, CardStatusCardFace, GameStatus, WsMessage};
use crate::rootrenderingcomponent::RootRenderingComponent;
use vstd::prelude::*;

verus! {

/// The card `c` showing face `face`.
pub open spec fn with_face(c: Card, face: CardStatusCardFace) -> Card {
    Card { status: face, ..c }
}

/// The data after the first picked card was turned up.
pub open spec fn flip_1st_post(old: GameData, new: GameData) -> bool {
    &&& new == (GameData {
        vec_cards: new.vec_cards,
        game_status: GameStatus::PlayBefore2ndCard,
        ..old
    })
    &&& new.vec_cards@ == old.vec_cards@.update(
        old.card_index_of_first_click as int,
        with_face(old.vec_cards@[old.card_index_of_first_click as int], CardStatusCardFace::UpTemporary),
    )
}

/// A click on card `i` is a first pick: the status waits for one, and `i`
/// is a dealt card lying face down.
pub open spec fn can_click_1st(gd: GameData, i: usize) -> bool {
    &&& gd.game_status == GameStatus::PlayBefore1stCard
    &&& 1 <= i < gd.vec_cards@.len()
    &&& gd.vec_cards@[i as int].status == CardStatusCardFace::Down
}

/// What a local click on card `i` does when a first pick is due: a first
/// pick turns the card up and yields one `PlayerClick1stCard` message with
/// the pick and the status it was made in; any other click changes nothing
/// and yields nothing.
pub open spec fn click_1st_outcome(old: GameData, new: GameData, i: usize, r: Seq<WsMessage>) -> bool {
    if can_click_1st(old, i) {
        &&& flip_1st_post(GameData { card_index_of_first_click: i, ..old }, new)
        &&& r.len() == 1
        &&& r[0] is PlayerClick1stCard
        &&& payload(r[0]) == (
            old.my_ws_uid,
            old.players@,
            old.vec_cards@,
            GameStatus::PlayBefore1stCard,
            i,
            old.card_index_of_second_click,
        )
    } else {
        new == old && r.len() == 0
    }
}

/// A peer's first pick of card `i`, made in status `status`, applies: it was
/// made as a first pick, on a dealt card that lies face down here.
pub open spec fn msg_click_1st_applies(old: GameData, status: GameStatus, i: usize) -> bool {
    &&& status == GameStatus::PlayBefore1stCard
    &&& 1 <= i < old.vec_cards@.len()
    &&& old.vec_cards@[i as int].status == CardStatusCardFace::Down
}

/// The data after a peer's first pick of card `i`, made in status `status`,
/// arrived: applied when it was made as a first pick on a dealt card lying
/// face down; otherwise ignored.
pub open spec fn msg_click_1st_post(old: GameData, new: GameData, status: GameStatus, i: usize) -> bool {
    if msg_click_1st_applies(old, status, i) {
        flip_1st_post(GameData { card_index_of_first_click: i, game_status: status, ..old }, new)
    } else {
        new == old
    }
}

/// This client picks card `this_click_card_index` as the first card of the
/// turn. A click that is no first pick (see `can_click_1st`) changes nothing
/// and sends nothing. Otherwise the card is turned up, the status waits for
/// the second pick, and the returned `PlayerClick1stCard` message carries the
/// pick with the status it was made in.
pub fn on_click_1st_card(rrc: &mut RootRenderingComponent, this_click_card_index: usize) -> (r: Vec<
    WsMessage,
>)
    ensures
        final(rrc).players_and_scores == old(rrc).players_and_scores,
        click_1st_outcome(old(rrc).game_data, final(rrc).game_data, this_click_card_index, r@),
{
    let mut r: Vec<WsMessage> = Vec::new();
    if rrc.game_data.game_status != GameStatus::PlayBefore1stCard || this_click_card_index == 0
        || this_click_card_index >= rrc.game_data.vec_cards.len()
        || rrc.game_data.vec_cards[this_click_card_index].status != CardStatusCardFace::Down {
        return r;
    }
    rrc.game_data.card_index_of_first_click = this_click_card_index;
    r.push(
        WsMessage::PlayerClick1stCard {
            my_ws_uid: rrc.game_data.my_ws_uid,
            players: copy_players(&rrc.game_data.players),
            card_grid_data: copy_cards(&rrc.game_data.vec_cards),
            game_status: rrc.game_data.game_status,
            card_index_of_first_click: rrc.game_data.card_index_of_first_click,
            card_index_of_second_click: rrc.game_data.card_index_of_second_click,
        },
    );
    card_click_1st_card(rrc);
    r
}

/// Turns the first picked card up; the status then waits for the second
/// pick.
pub fn card_click_1st_card(rrc: &mut RootRenderingComponent)
    requires
        old(rrc).game_data.card_index_of_first_click < old(rrc).game_data.vec_cards@.len(),
    ensures
        final(rrc).players_and_scores == old(rrc).players_and_scores,
        flip_1st_post(old(rrc).game_data, final(rrc).game_data),
{
    let i = rrc.game_data.card_index_of_first_click;
    rrc.game_data.vec_cards[i].status = CardStatusCardFace::UpTemporary;
    rrc.game_data.game_status = GameStatus::PlayBefore2ndCard;
}

/// A peer picked card `card_index` as a first card, in status `game_status`.
/// Returns whether the pick applied (see `msg_click_1st_applies`).
pub fn on_msg_player_click_1st_card(rrc: &mut RootRenderingComponent, game_status: GameStatus, card_index: usize) -> (r: bool)
    ensures
        final(rrc).players_and_scores == old(rrc).players_and_scores,
        msg_click_1st_post(old(rrc).game_data, final(rrc).game_data, game_status, card_index),
        r == msg_click_1st_applies(old(rrc).game_data, game_status, card_index),
{
    if game_status == GameStatus::PlayBefore1stCard && 1 <= card_index && card_index < rrc.game_data.vec_cards.len()
        && rrc.game_data.vec_cards[card_index].status == CardStatusCardFace::Down {
        rrc.game_data.game_status = game_status;
        rrc.game_data.card_index_of_first_click = card_index;
        card_click_1st_card(rrc);
        true
    } else {
        false
    }
}

} // verus!
