//! The second pick of a turn and the resolution of the pair.

use crate::gamedata::{game_over, is_game_over, sum_points, GameData};
use crate::protocol::{copy_cards, copy_players, payload, Card, CardStatusCardFace, GameStatus, Player, WsMessage};
use crate::rootrenderingcomponent::RootRenderingComponent;
use crate::statusplaybefore1stcard::{click_1st_outcome, on_click_1st_card, with_face};
use vstd::prelude::*;

verus! {

/// The state that a full-state message about `gd` carries.
pub open spec fn state_payload(gd: GameData) -> (usize, Seq<Player>, Seq<Card>, GameStatus, usize, usize) {
    (
        gd.my_ws_uid,
        gd.players@,
        gd.vec_cards@,
        gd.game_status,
        gd.card_index_of_first_click,
        gd.card_index_of_second_click,
    )
}

/// Both picks name two different cards of the deck, a player is in turn, and
/// that player's points can grow.
pub open spec fn resolvable(gd: GameData) -> bool {
    &&& gd.card_index_of_first_click < gd.vec_cards@.len()
    &&& gd.card_index_of_second_click < gd.vec_cards@.len()
    &&& gd.card_index_of_first_click != gd.card_index_of_second_click
    &&& 1 <= gd.player_turn <= gd.players@.len()
    &&& gd.players@[gd.player_turn - 1].points < usize::MAX
}

/// The two picked cards show the same face value.
pub open spec fn picks_match(gd: GameData) -> bool {
    gd.vec_cards@[gd.card_index_of_first_click as int].card_number_and_img_src
        == gd.vec_cards@[gd.card_index_of_second_click as int].card_number_and_img_src
}

/// The data after the pair was resolved. On a match both cards stay up for
/// good, the player in turn gains a point, both picks are cleared, and the
/// game is over when all pairs are found; otherwise the same player goes on.
/// Without a match both cards stay turned up until the turn is handed over.
pub open spec fn resolve_post(old: GameData, new: GameData) -> bool {
    let x1 = old.card_index_of_first_click as int;
    let x2 = old.card_index_of_second_click as int;
    let cards = old.vec_cards@;
    if picks_match(old) {
        let t = old.player_turn - 1;
        &&& new == (GameData {
            vec_cards: new.vec_cards,
            players: new.players,
            card_index_of_first_click: 0,
            card_index_of_second_click: 0,
            game_status: new.game_status,
            ..old
        })
        &&& new.vec_cards@ == cards.update(x1, with_face(cards[x1], CardStatusCardFace::UpPermanently)).update(
            x2,
            with_face(cards[x2], CardStatusCardFace::UpPermanently),
        )
        &&& new.players@ == old.players@.update(
            t,
            Player { points: (old.players@[t].points + 1) as usize, ..old.players@[t] },
        )
        &&& new.game_status == if game_over(new.players@, new.vec_cards@) {
            GameStatus::GameOverPlayAgainBegin
        } else {
            GameStatus::PlayBefore1stCard
        }
    } else {
        &&& new == (GameData {
            vec_cards: new.vec_cards,
            game_status: GameStatus::TakeTurnBegin,
            ..old
        })
        &&& new.vec_cards@ == cards.update(x1, with_face(cards[x1], CardStatusCardFace::UpTemporary)).update(
            x2,
            with_face(cards[x2], CardStatusCardFace::UpTemporary),
        )
    }
}

/// The messages that a local second pick sends: the pick, with the state it
/// was made in, then the outcome when the turn ends or the game is over.
pub open spec fn resolve_messages(old: GameData, new: GameData, r: Seq<WsMessage>) -> bool {
    &&& r.len() == if new.game_status == GameStatus::PlayBefore1stCard {
        1int
    } else {
        2int
    }
    &&& r[0] is PlayerClick2ndCard
    &&& payload(r[0]) == state_payload(old)
    &&& new.game_status == GameStatus::TakeTurnBegin ==> r[1] is TakeTurnBegin && payload(r[1])
        == state_payload(new)
    &&& new.game_status == GameStatus::GameOverPlayAgainBegin ==> r[1] is GameOverPlayAgainBegin
        && payload(r[1]) == state_payload(new)
}

/// A click on card `i` is a second pick: the status waits for one, `i` is a
/// dealt card lying face down other than the first pick, and the pair can be
/// resolved.
pub open spec fn can_click_2nd(gd: GameData, i: usize) -> bool {
    &&& gd.game_status == GameStatus::PlayBefore2ndCard
    &&& 1 <= i < gd.vec_cards@.len()
    &&& i != gd.card_index_of_first_click
    &&& gd.vec_cards@[i as int].status == CardStatusCardFace::Down
    &&& resolvable(GameData { card_index_of_second_click: i, ..gd })
}

/// What a local click on card `i` does when a second pick is due: a second
/// pick resolves the pair and yields the messages of `resolve_messages`; any
/// other click changes nothing and yields nothing.
pub open spec fn click_2nd_outcome(old: GameData, new: GameData, i: usize, r: Seq<WsMessage>) -> bool {
    if can_click_2nd(old, i) {
        let picked = GameData { card_index_of_second_click: i, ..old };
        &&& resolve_post(picked, new)
        &&& resolve_messages(picked, new, r)
    } else {
        new == old && r.len() == 0
    }
}

/// A peer's second pick of card `i`, made in status `status`, applies: it was
/// made as a second pick, on a dealt card other than the first pick that lies
/// face down here, and the pair can be resolved.
pub open spec fn msg_click_2nd_applies(old: GameData, status: GameStatus, i: usize) -> bool {
    &&& status == GameStatus::PlayBefore2ndCard
    &&& 1 <= i < old.vec_cards@.len()
    &&& i != old.card_index_of_first_click
    &&& old.vec_cards@[i as int].status == CardStatusCardFace::Down
    &&& resolvable(GameData { card_index_of_second_click: i, game_status: status, ..old })
}

/// The data after a peer's second pick of card `i`, made in status `status`,
/// arrived: resolved when it was made as a second pick on a dealt card other
/// than the first pick, lying face down, and the pair can be resolved;
/// otherwise ignored.
pub open spec fn msg_click_2nd_post(old: GameData, new: GameData, status: GameStatus, i: usize) -> bool {
    if msg_click_2nd_applies(old, status, i) {
        resolve_post(GameData { card_index_of_second_click: i, game_status: status, ..old }, new)
    } else {
        new == old
    }
}

/// This client picks card `this_click_card_index` as the second card of the
/// turn and resolves the pair. A click that is no second pick (see
/// `can_click_2nd`) changes nothing and sends nothing.
pub fn on_click_2nd_card(rrc: &mut RootRenderingComponent, this_click_card_index: usize) -> (r: Vec<
    WsMessage,
>)
    ensures
        final(rrc).players_and_scores == old(rrc).players_and_scores,
        click_2nd_outcome(old(rrc).game_data, final(rrc).game_data, this_click_card_index, r@),
{
    let gd = &rrc.game_data;
    if gd.game_status != GameStatus::PlayBefore2ndCard || this_click_card_index == 0
        || this_click_card_index >= gd.vec_cards.len()
        || this_click_card_index == gd.card_index_of_first_click
        || gd.vec_cards[this_click_card_index].status != CardStatusCardFace::Down
        || gd.card_index_of_first_click >= gd.vec_cards.len() || gd.player_turn == 0
        || gd.player_turn > gd.players.len() || gd.players[gd.player_turn - 1].points == usize::MAX {
        return Vec::new();
    }
    rrc.game_data.card_index_of_second_click = this_click_card_index;
    card_click_2nd_card(rrc, true)
}

/// Resolves the two picks (see `resolve_post`). For a local click it returns
/// the messages to send (see `resolve_messages`); for a pick that came from a
/// peer it returns none.
pub fn card_click_2nd_card(rrc: &mut RootRenderingComponent, is_local_click: bool) -> (r: Vec<WsMessage>)
    requires
        resolvable(old(rrc).game_data),
    ensures
        final(rrc).players_and_scores == old(rrc).players_and_scores,
        resolve_post(old(rrc).game_data, final(rrc).game_data),
        is_local_click ==> resolve_messages(old(rrc).game_data, final(rrc).game_data, r@),
        !is_local_click ==> r@.len() == 0,
{
    let mut r: Vec<WsMessage> = Vec::new();
    if is_local_click {
        r.push(
            WsMessage::PlayerClick2ndCard {
                my_ws_uid: rrc.game_data.my_ws_uid,
                players: copy_players(&rrc.game_data.players),
                card_grid_data: copy_cards(&rrc.game_data.vec_cards),
                game_status: rrc.game_data.game_status,
                card_index_of_first_click: rrc.game_data.card_index_of_first_click,
                card_index_of_second_click: rrc.game_data.card_index_of_second_click,
            },
        );
    }
    let x1 = rrc.game_data.card_index_of_first_click;
    let x2 = rrc.game_data.card_index_of_second_click;
    rrc.game_data.vec_cards[x1].status = CardStatusCardFace::UpTemporary;
    rrc.game_data.vec_cards[x2].status = CardStatusCardFace::UpTemporary;
    if rrc.game_data.vec_cards[x1].card_number_and_img_src == rrc.game_data.vec_cards[x2].card_number_and_img_src {
        let t = rrc.game_data.player_turn - 1;
        rrc.game_data.players[t].points = rrc.game_data.players[t].points + 1;
        rrc.game_data.vec_cards[x1].status = CardStatusCardFace::UpPermanently;
        rrc.game_data.vec_cards[x2].status = CardStatusCardFace::UpPermanently;
        rrc.game_data.card_index_of_first_click = 0;
        rrc.game_data.card_index_of_second_click = 0;
        proof {
            let cards = old(rrc).game_data.vec_cards@;
            assert(rrc.game_data.vec_cards@ =~= cards.update(
                x1 as int,
                with_face(cards[x1 as int], CardStatusCardFace::UpPermanently),
            ).update(x2 as int, with_face(cards[x2 as int], CardStatusCardFace::UpPermanently)));
        }
        if is_game_over(&rrc.game_data.players, &rrc.game_data.vec_cards) {
            rrc.game_data.game_status = GameStatus::GameOverPlayAgainBegin;
            if is_local_click {
                r.push(
                    WsMessage::GameOverPlayAgainBegin {
                        my_ws_uid: rrc.game_data.my_ws_uid,
                        players: copy_players(&rrc.game_data.players),
                        card_grid_data: copy_cards(&rrc.game_data.vec_cards),
                        game_status: rrc.game_data.game_status,
                        card_index_of_first_click: rrc.game_data.card_index_of_first_click,
                        card_index_of_second_click: rrc.game_data.card_index_of_second_click,
                    },
                );
            }
        } else {
            rrc.game_data.game_status = GameStatus::PlayBefore1stCard;
        }
    } else {
        proof {
            let cards = old(rrc).game_data.vec_cards@;
            assert(rrc.game_data.vec_cards@ =~= cards.update(
                x1 as int,
                with_face(cards[x1 as int], CardStatusCardFace::UpTemporary),
            ).update(x2 as int, with_face(cards[x2 as int], CardStatusCardFace::UpTemporary)));
        }
        rrc.game_data.game_status = GameStatus::TakeTurnBegin;
        if is_local_click {
            r.push(
                WsMessage::TakeTurnBegin {
                    my_ws_uid: rrc.game_data.my_ws_uid,
                    players: copy_players(&rrc.game_data.players),
                    card_grid_data: copy_cards(&rrc.game_data.vec_cards),
                    game_status: rrc.game_data.game_status,
                    card_index_of_first_click: rrc.game_data.card_index_of_first_click,
                    card_index_of_second_click: rrc.game_data.card_index_of_second_click,
                },
            );
        }
    }
    r
}

/// This client clicks card `this_click_card_index`. Only the player in turn
/// picks cards: for any other player the click changes nothing. The click is
/// a first or a second pick according to the status (see
/// `click_1st_outcome` and `click_2nd_outcome`); in any other status it
/// changes nothing.
pub fn on_click_card(rrc: &mut RootRenderingComponent, this_click_card_index: usize) -> (r: Vec<WsMessage>)
    ensures
        final(rrc).players_and_scores == old(rrc).players_and_scores,
        old(rrc).game_data.my_player_number != old(rrc).game_data.player_turn ==> *final(rrc) == *old(
            rrc,
        ) && r@.len() == 0,
        old(rrc).game_data.my_player_number == old(rrc).game_data.player_turn ==> {
            &&& old(rrc).game_data.game_status == GameStatus::PlayBefore1stCard ==> click_1st_outcome(
                old(rrc).game_data,
                final(rrc).game_data,
                this_click_card_index,
                r@,
            )
            &&& old(rrc).game_data.game_status == GameStatus::PlayBefore2ndCard ==> click_2nd_outcome(
                old(rrc).game_data,
                final(rrc).game_data,
                this_click_card_index,
                r@,
            )
            &&& old(rrc).game_data.game_status != GameStatus::PlayBefore1stCard
                && old(rrc).game_data.game_status != GameStatus::PlayBefore2ndCard ==> *final(rrc)
                == *old(rrc) && r@.len() == 0
        },
{
    if rrc.game_data.my_player_number != rrc.game_data.player_turn {
        return Vec::new();
    }
    match rrc.game_data.game_status {
        GameStatus::PlayBefore1stCard => on_click_1st_card(rrc, this_click_card_index),
        GameStatus::PlayBefore2ndCard => on_click_2nd_card(rrc, this_click_card_index),
        _ => Vec::new(),
    }
}

/// A peer picked card `card_index` as a second card, in status
/// `game_status`. Returns whether the pick applied (see
/// `msg_click_2nd_applies`).
pub fn on_msg_player_click_2nd_card(rrc: &mut RootRenderingComponent, game_status: GameStatus, card_index: usize) -> (r: bool)
    ensures
        final(rrc).players_and_scores == old(rrc).players_and_scores,
        msg_click_2nd_post(old(rrc).game_data, final(rrc).game_data, game_status, card_index),
        r == msg_click_2nd_applies(old(rrc).game_data, game_status, card_index),
{
    let gd = &rrc.game_data;
    if game_status != GameStatus::PlayBefore2ndCard || card_index == 0 || card_index >= gd.vec_cards.len()
        || card_index == gd.card_index_of_first_click
        || gd.vec_cards[card_index].status != CardStatusCardFace::Down
        || gd.card_index_of_first_click >= gd.vec_cards.len()
        || gd.player_turn == 0 || gd.player_turn > gd.players.len() || gd.players[gd.player_turn
        - 1].points == usize::MAX {
        return false;
    }
    rrc.game_data.game_status = game_status;
    rrc.game_data.card_index_of_second_click = card_index;
    let _ = card_click_2nd_card(rrc, false);
    true
}

/// A peer found the last pair: the game is over.
pub fn on_msg_play_again(rrc: &mut RootRenderingComponent)
    ensures
        final(rrc).players_and_scores == old(rrc).players_and_scores,
        final(rrc).game_data == (GameData {
            game_status: GameStatus::GameOverPlayAgainBegin,
            ..old(rrc).game_data
        }),
{
    rrc.game_data.game_status = GameStatus::GameOverPlayAgainBegin;
}

} // verus!

verus! {

/// Resolving a matching pair, whichever pair it is, leaves both cards up
/// for good and gives the player in turn exactly one more point.
pub proof fn lemma_match_scores_one(old: GameData, new: GameData)
    requires
        resolvable(old),
        picks_match(old),
        resolve_post(old, new),
    ensures
        new.vec_cards@[old.card_index_of_first_click as int].status == CardStatusCardFace::UpPermanently,
        new.vec_cards@[old.card_index_of_second_click as int].status == CardStatusCardFace::UpPermanently,
        new.players@[old.player_turn - 1].points == old.players@[old.player_turn - 1].points + 1,
        sum_points(new.players@) == sum_points(old.players@) + 1,
{
    lemma_sum_points_update(old.players@, old.player_turn - 1);
}

/// A resolution ends the game exactly when it finds a pair and twice the sum
/// of the points then equals the number of dealt cards; never otherwise.
pub proof fn lemma_game_over_boundary(old: GameData, new: GameData)
    requires
        resolvable(old),
        resolve_post(old, new),
    ensures
        new.game_status == GameStatus::GameOverPlayAgainBegin <==> (picks_match(old) && 2 * sum_points(
            new.players@,
        ) == new.vec_cards@.len() - 1),
{
}

/// Adding one point to one player adds one to the sum.
pub proof fn lemma_sum_points_update(players: Seq<Player>, t: int)
    requires
        0 <= t < players.len(),
        players[t].points < usize::MAX,
    ensures
        sum_points(players.update(t, Player { points: (players[t].points + 1) as usize, ..players[t] }))
            == sum_points(players) + 1,
    decreases players.len(),
{
    let p = Player { points: (players[t].points + 1) as usize, ..players[t] };
    let u = players.update(t, p);
    if t == players.len() - 1 {
        assert(u.drop_last() =~= players.drop_last());
    } else {
        lemma_sum_points_update(players.drop_last(), t);
        assert(u.drop_last() =~= players.drop_last().update(t, p));
    }
}

} // verus!
