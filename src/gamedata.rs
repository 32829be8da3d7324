//! The game data that one client holds: deck, players, turn, picks and
//! status.

use crate::deal::{deal_deck, deck_values, fresh_deck};
use crate::protocol::{Card, CardStatusCardFace, GameStatus, Player, Spelling};
use vstd::prelude::*;

verus! {

/// Cards in the placeholder deck shown before a game is dealt, besides card 0.
pub const EMPTY_DECK_CARDS: usize = 32;

/// All the data of one client.
pub struct GameData {
    /// The deck; card 0 is reserved and never dealt.
    pub vec_cards: Vec<Card>,
    /// Position of the first card turned up in this turn, 0 when none.
    pub card_index_of_first_click: usize,
    /// Position of the second card turned up in this turn, 0 when none.
    pub card_index_of_second_click: usize,
    /// This client's id; messages that carry it are this client's own echo.
    pub my_ws_uid: usize,
    /// The players in turn order.
    pub players: Vec<Player>,
    /// The status of the game.
    pub game_status: GameStatus,
    /// The content set in play.
    pub content_folder_name: String,
    /// The content set that an invitation asks for.
    pub asked_folder_name: String,
    /// This client's player number, from 1; 0 when not assigned.
    pub my_player_number: usize,
    /// The number of the player in turn, from 1; 0 before play starts.
    pub player_turn: usize,
    /// The content sets that can be played.
    pub content_folders: Vec<String>,
    /// The configuration of the content set, once it has been loaded.
    pub game_config: Option<Spelling>,
    /// An error that stops the game, if one occurred.
    pub error_text: Option<String>,
    /// The connection was lost and has not been re-established yet.
    pub is_reconnect: bool,
}

/// The sum of the points of all players.
pub open spec fn sum_points(players: Seq<Player>) -> int
    decreases players.len(),
{
    if players.len() == 0 {
        0
    } else {
        sum_points(players.drop_last()) + players.last().points
    }
}

/// The sum over a prefix never exceeds the sum over the whole list.
pub proof fn lemma_sum_points_prefix(players: Seq<Player>, i: int)
    requires
        0 <= i <= players.len(),
    ensures
        0 <= sum_points(players.subrange(0, i)) <= sum_points(players),
    decreases players.len() - i,
{
    if i < players.len() {
        lemma_sum_points_prefix(players, i + 1);
        lemma_sum_points_nonneg(players.subrange(0, i));
        assert(players.subrange(0, i + 1).drop_last() =~= players.subrange(0, i));
    } else {
        assert(players.subrange(0, i) =~= players);
        lemma_sum_points_nonneg(players);
    }
}

/// A sum of points is never negative.
pub proof fn lemma_sum_points_nonneg(players: Seq<Player>)
    ensures
        sum_points(players) >= 0,
    decreases players.len(),
{
    if players.len() > 0 {
        lemma_sum_points_nonneg(players.drop_last());
    }
}

/// The player in turn after `turn` among `n` players: the next one in the
/// list, and the first after the last.
pub open spec fn next_turn(turn: int, n: int) -> int {
    if turn < n {
        turn + 1
    } else {
        1
    }
}

/// The game is over when every dealt card (all but card 0) belongs to a
/// found pair.
pub open spec fn game_over(players: Seq<Player>, cards: Seq<Card>) -> bool {
    2 * sum_points(players) == cards.len() - 1
}

/// The placeholder deck shown before a game is dealt.
pub open spec fn empty_deck(cards: Seq<Card>) -> bool {
    &&& cards.len() == EMPTY_DECK_CARDS + 1
    &&& forall|i: int|
        0 <= i < cards.len() ==> #[trigger] cards[i] == (Card {
            status: CardStatusCardFace::Down,
            card_number_and_img_src: 1,
            card_index_and_id: i as usize,
        })
}

/// The number of the player in turn after `player_turn` among
/// `players_count` players.
pub fn next_player_turn(player_turn: usize, players_count: usize) -> (r: usize)
    ensures
        r == next_turn(player_turn as int, players_count as int),
{
    if player_turn < players_count {
        player_turn + 1
    } else {
        1
    }
}

/// Whether all pairs are found: twice the sum of the points equals the
/// number of dealt cards.
pub fn is_game_over(players: &Vec<Player>, vec_cards: &Vec<Card>) -> (r: bool)
    ensures
        r == game_over(players@, vec_cards@),
{
    if vec_cards.len() == 0 {
        proof {
            lemma_sum_points_nonneg(players@);
        }
        return false;
    }
    let limit = vec_cards.len() - 1;
    let mut sum: usize = 0;
    let mut i: usize = 0;
    while i < players.len()
        invariant
            i <= players.len(),
            limit == vec_cards@.len() - 1,
            sum == sum_points(players@.subrange(0, i as int)),
            sum <= limit,
        decreases players.len() - i,
    {
        proof {
            assert(players@.subrange(0, i + 1).drop_last() =~= players@.subrange(0, i as int));
        }
        if players[i].points > limit - sum {
            proof {
                lemma_sum_points_prefix(players@, i + 1);
            }
            return false;
        }
        sum = sum + players[i].points;
        i = i + 1;
    }
    proof {
        assert(players@.subrange(0, players.len() as int) =~= players@);
    }
    limit % 2 == 0 && sum == limit / 2
}

/// The placeholder deck: card 0 and 32 face-down cards, all showing the same
/// face, until a game is dealt.
pub fn prepare_for_empty() -> (r: Vec<Card>)
    ensures
        empty_deck(r@),
{
    let mut vec_cards: Vec<Card> = Vec::new();
    let mut i: usize = 0;
    while i <= EMPTY_DECK_CARDS
        invariant
            i <= EMPTY_DECK_CARDS + 1,
            vec_cards@.len() == i,
            forall|j: int|
                0 <= j < i ==> #[trigger] vec_cards@[j] == (Card {
                    status: CardStatusCardFace::Down,
                    card_number_and_img_src: 1,
                    card_index_and_id: j as usize,
                }),
        decreases EMPTY_DECK_CARDS + 1 - i,
    {
        vec_cards.push(Card { status: CardStatusCardFace::Down, card_number_and_img_src: 1, card_index_and_id: i });
        i = i + 1;
    }
    vec_cards
}

impl GameData {
    /// The data of a new session of the client with id `my_ws_uid`.
    pub fn new(my_ws_uid: usize) -> (r: GameData)
        ensures
            empty_deck(r.vec_cards@),
            r.card_index_of_first_click == 0,
            r.card_index_of_second_click == 0,
            r.my_ws_uid == my_ws_uid,
            r.players@ == seq![Player { ws_uid: 0, points: 0 }],
            r.game_status == GameStatus::InviteAskBegin,
            r.content_folder_name@ == "alphabet"@,
            r.asked_folder_name@ == ""@,
            r.my_player_number == 1,
            r.player_turn == 0,
            r.content_folders@.len() == 4,
            r.content_folders@[0]@ == "alphabet"@,
            r.content_folders@[1]@ == "animals"@,
            r.content_folders@[2]@ == "playingcards"@,
            r.content_folders@[3]@ == "triestine"@,
            r.game_config.is_none(),
            r.error_text.is_none(),
            !r.is_reconnect,
    {
        let mut players: Vec<Player> = Vec::new();
        players.push(Player { ws_uid: 0, points: 0 });
        let mut content_folders: Vec<String> = Vec::new();
        content_folders.push("alphabet".to_owned());
        content_folders.push("animals".to_owned());
        content_folders.push("playingcards".to_owned());
        content_folders.push("triestine".to_owned());
        GameData {
            vec_cards: prepare_for_empty(),
            card_index_of_first_click: 0,
            card_index_of_second_click: 0,
            my_ws_uid,
            players,
            game_status: GameStatus::InviteAskBegin,
            content_folder_name: "alphabet".to_owned(),
            asked_folder_name: "".to_owned(),
            my_player_number: 1,
            player_turn: 0,
            content_folders,
            game_config: None,
            error_text: None,
            is_reconnect: false,
        }
    }

    /// The placeholder deck (see the free function `prepare_for_empty`).
    pub fn prepare_for_empty() -> (r: Vec<Card>)
        ensures
            empty_deck(r@),
    {
        prepare_for_empty()
    }

    /// The number of face values in the loaded configuration, without the
    /// face-down image; 0 when none is loaded.
    pub fn face_value_count(&self) -> (r: usize)
        ensures
            r == names_of(self.game_config),
    {
        match &self.game_config {
            Some(c) => if c.name.len() >= 1 {
                c.name.len() - 1
            } else {
                0
            },
            None => 0,
        }
    }

    /// Deals a new shuffled deck for the current players from the face values
    /// of the loaded configuration (see `deal_deck`). Nothing else changes.
    pub fn prepare_random_data(&mut self)
        requires
            names_of(old(self).game_config) >= 1,
            old(self).players.len() * 16 < usize::MAX,
        ensures
            *final(self) == (GameData { vec_cards: final(self).vec_cards, ..*old(self) }),
            final(self).vec_cards@.len() == 1 + 16 * old(self).players.len(),
            fresh_deck(final(self).vec_cards@),
            forall|v: usize| {
                let c = #[trigger] deck_values(final(self).vec_cards@).to_multiset().count(v);
                let names = names_of(old(self).game_config);
                let multiple = (8 * old(self).players.len()) / (names as int);
                &&& (1 <= v <= names ==> c == 2 * multiple || c == 2 * multiple + 2)
                &&& (!(1 <= v <= names) ==> c == 0)
            },
            8 * old(self).players.len() <= names_of(old(self).game_config) ==> forall|v: usize|
                #[trigger] deck_values(final(self).vec_cards@).to_multiset().count(v) == 0
                    || deck_values(final(self).vec_cards@).to_multiset().count(v) == 2,
    {
        let names = self.face_value_count();
        self.vec_cards = deal_deck(self.players.len(), names);
    }
}

/// The number of face values of a configuration, without the face-down
/// image at index 0.
pub open spec fn names_of(config: Option<Spelling>) -> nat {
    match config {
        Some(c) => if c.name@.len() >= 1 {
            (c.name@.len() - 1) as nat
        } else {
            0
        },
        None => 0,
    }
}

} // verus!
