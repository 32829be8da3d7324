//! The root component: the game data and the score panel's cache, with the
//! transitions that start, reset and initialise a game.

use crate::deal::{deck_values, fresh_deck};
use crate::gamedata::{empty_deck, names_of, prepare_for_empty, GameData};
use crate::playersandscores::{cache_of, PlayersAndScores};
use crate::statustaketurnbegin::{picks_in_deck, take_turn_end, take_turn_end_post};
use crate::protocol::{copy_cards, copy_players, Card, GameStatus, Player, Spelling, WsMessage};
use vstd::prelude::*;

verus! {

/// The root component: all the data of one client.
pub struct RootRenderingComponent {
    /// The game data.
    pub game_data: GameData,
    /// The score panel's cache.
    pub players_and_scores: PlayersAndScores,
}

/// Two configurations hold the same names and sizes.
pub open spec fn same_config(a: Option<Spelling>, b: Option<Spelling>) -> bool {
    match (a, b) {
        (None, None) => true,
        (Some(x), Some(y)) => x.name@ == y.name@ && x.card_width == y.card_width && x.card_height
            == y.card_height,
        _ => false,
    }
}

/// A copy of a configuration.
pub fn copy_config(c: &Option<Spelling>) -> (r: Option<Spelling>)
    ensures
        same_config(r, *c),
{
    match c {
        None => None,
        Some(s) => {
            let mut name: Vec<String> = Vec::new();
            let mut i: usize = 0;
            while i < s.name.len()
                invariant
                    i <= s.name.len(),
                    name@ == s.name@.subrange(0, i as int),
                decreases s.name.len() - i,
            {
                name.push(s.name[i].clone());
                i = i + 1;
            }
            assert(name@ =~= s.name@);
            Some(Spelling { name, card_width: s.card_width, card_height: s.card_height })
        },
    }
}

/// The player number of the client `uid` in `players`: one more than the
/// last position that holds it, or `default` when none does.
pub open spec fn player_number_of(players: Seq<Player>, uid: usize, default: usize) -> usize
    decreases players.len(),
{
    if players.len() == 0 {
        default
    } else if players.last().ws_uid == uid {
        players.len() as usize
    } else {
        player_number_of(players.drop_last(), uid, default)
    }
}

/// The data after `reset`: the state before any invitation, keeping this
/// client's id, the content sets, the error and the connection flag.
pub open spec fn reset_post(old: GameData, new: GameData) -> bool {
    &&& new == (GameData {
        vec_cards: new.vec_cards,
        players: new.players,
        content_folder_name: new.content_folder_name,
        asked_folder_name: new.asked_folder_name,
        game_config: new.game_config,
        card_index_of_first_click: 0,
        card_index_of_second_click: 0,
        game_status: GameStatus::InviteAskBegin,
        my_player_number: 1,
        player_turn: 0,
        ..old
    })
    &&& empty_deck(new.vec_cards@)
    &&& new.players@.len() == 0
    &&& new.content_folder_name@ == "alphabet"@
    &&& new.asked_folder_name@ == ""@
    &&& new.game_config.is_none()
}

/// The data after the dealt game `cards` with `config` and `players` was
/// received: play starts with player 1 and this client finds its number.
pub open spec fn game_data_init_post(
    old: GameData,
    new: GameData,
    cards: Seq<Card>,
    config: Option<Spelling>,
    players: Seq<Player>,
) -> bool {
    &&& new == (GameData {
        vec_cards: new.vec_cards,
        players: new.players,
        content_folder_name: new.content_folder_name,
        game_config: new.game_config,
        card_index_of_first_click: 0,
        card_index_of_second_click: 0,
        game_status: GameStatus::PlayBefore1stCard,
        player_turn: 1,
        my_player_number: player_number_of(players, old.my_ws_uid, old.my_player_number),
        ..old
    })
    &&& new.vec_cards@ == cards
    &&& new.players@ == players
    &&& same_config(new.game_config, config)
    &&& new.content_folder_name@ == old.asked_folder_name@
}

/// The data after the relay answered with `your_ws_uid`: an error when it is
/// not this client's id, else nothing changes.
pub open spec fn ws_uid_post(old: GameData, new: GameData, your_ws_uid: usize) -> bool {
    if old.my_ws_uid == your_ws_uid {
        new == old
    } else {
        &&& new == (GameData { error_text: new.error_text, ..old })
        &&& new.error_text is Some
        &&& new.error_text.unwrap()@ == "my_ws_uid is incorrect!"@
    }
}

/// The player number of the client `uid` in `players` (see
/// `player_number_of`).
pub fn player_number_in(players: &Vec<Player>, uid: usize, default: usize) -> (r: usize)
    ensures
        r == player_number_of(players@, uid, default),
{
    let mut number = default;
    let mut index: usize = 0;
    while index < players.len()
        invariant
            index <= players@.len(),
            number == player_number_of(players@.subrange(0, index as int), uid, default),
        decreases players.len() - index,
    {
        proof {
            assert(players@.subrange(0, index + 1).drop_last() =~= players@.subrange(0, index as int));
        }
        if players[index].ws_uid == uid {
            number = index + 1;
        }
        index = index + 1;
    }
    assert(players@.subrange(0, players@.len() as int) =~= players@);
    number
}

impl RootRenderingComponent {
    /// The component of a new session of the client with id `my_ws_uid`.
    pub fn new(my_ws_uid: usize) -> (r: RootRenderingComponent)
        ensures
            r.game_data.my_ws_uid == my_ws_uid,
            r.game_data.game_status == GameStatus::InviteAskBegin,
            empty_deck(r.game_data.vec_cards@),
            r.game_data.player_turn == 0,
            r.game_data.my_player_number == 1,
            r.players_and_scores == PlayersAndScores::spec_new(),
    {
        RootRenderingComponent { game_data: GameData::new(my_ws_uid), players_and_scores: PlayersAndScores::new() }
    }

    /// Brings the score panel's cache up to date; returns whether it changed
    /// and must be drawn again. The game data does not change.
    pub fn check_invalidate_for_all_components(&mut self) -> (r: bool)
        ensures
            final(self).game_data == old(self).game_data,
            final(self).players_and_scores == cache_of(old(self).players_and_scores, old(self).game_data),
            r == (final(self).players_and_scores != old(self).players_and_scores),
    {
        self.players_and_scores.update_intern_cache(&self.game_data)
    }

    /// The inviting player starts the game: deals a deck for the players
    /// that accepted, from the loaded configuration, and returns the
    /// `GameDataInit` message that hands it to the others. Only while
    /// inviting (status `InviteAsking`) and with a configuration that has a
    /// face value; otherwise nothing happens and no message is returned.
    pub fn game_data_init(&mut self) -> (r: Vec<WsMessage>)
        ensures
            final(self).players_and_scores == old(self).players_and_scores,
            old(self).game_data.game_status == GameStatus::InviteAsking && names_of(
                old(self).game_data.game_config,
            ) >= 1 && old(self).game_data.players.len() * 16 < usize::MAX ==> {
                &&& r@.len() == 1
                &&& final(self).game_data == (GameData {
                    vec_cards: final(self).game_data.vec_cards,
                    content_folder_name: final(self).game_data.content_folder_name,
                    game_status: GameStatus::PlayBefore1stCard,
                    player_turn: 1,
                    card_index_of_first_click: 0,
                    card_index_of_second_click: 0,
                    ..old(self).game_data
                })
                &&& final(self).game_data.content_folder_name@ == old(self).game_data.asked_folder_name@
                &&& final(self).game_data.vec_cards@.len() == 1 + 16 * old(self).game_data.players.len()
                &&& fresh_deck(final(self).game_data.vec_cards@)
                &&& forall|v: usize| {
                    let c = #[trigger] deck_values(final(self).game_data.vec_cards@).to_multiset().count(v);
                    let names = names_of(old(self).game_data.game_config);
                    let multiple = (8 * old(self).game_data.players.len()) / (names as int);
                    &&& (1 <= v <= names ==> c == 2 * multiple || c == 2 * multiple + 2)
                    &&& (!(1 <= v <= names) ==> c == 0)
                }
                &&& 8 * old(self).game_data.players.len() <= names_of(old(self).game_data.game_config)
                    ==> forall|v: usize|
                    #[trigger] deck_values(final(self).game_data.vec_cards@).to_multiset().count(v) == 0
                        || deck_values(final(self).game_data.vec_cards@).to_multiset().count(v) == 2
                &&& match r@[0] {
                    WsMessage::GameDataInit { card_grid_data, game_config, players } => {
                        &&& card_grid_data@ == final(self).game_data.vec_cards@
                        &&& players@ == final(self).game_data.players@
                        &&& same_config(game_config, final(self).game_data.game_config)
                    },
                    _ => false,
                }
            },
            !(old(self).game_data.game_status == GameStatus::InviteAsking && names_of(
                old(self).game_data.game_config,
            ) >= 1 && old(self).game_data.players.len() * 16 < usize::MAX) ==> r@.len() == 0
                && *final(self) == *old(self),
    {
        if self.game_data.game_status != GameStatus::InviteAsking {
            return Vec::new();
        }
        if self.game_data.face_value_count() == 0 || self.game_data.players.len() > (usize::MAX - 1) / 16 {
            proof {
                let n = old(self).game_data.players.len();
                if n > (usize::MAX - 1) / 16 {
                    assert(n * 16 >= usize::MAX) by (nonlinear_arith)
                        requires
                            n > (usize::MAX - 1) / 16,
                    ;
                }
            }
            return Vec::new();
        }
        assert(self.game_data.players.len() * 16 < usize::MAX) by (nonlinear_arith)
            requires
                self.game_data.players.len() <= (usize::MAX - 1) / 16,
        ;
        self.game_data.content_folder_name = self.game_data.asked_folder_name.clone();
        self.game_data.prepare_random_data();
        self.game_data.game_status = GameStatus::PlayBefore1stCard;
        self.game_data.player_turn = 1;
        self.game_data.card_index_of_first_click = 0;
        self.game_data.card_index_of_second_click = 0;
        let mut r: Vec<WsMessage> = Vec::new();
        r.push(
            WsMessage::GameDataInit {
                card_grid_data: copy_cards(&self.game_data.vec_cards),
                game_config: copy_config(&self.game_data.game_config),
                players: copy_players(&self.game_data.players),
            },
        );
        r
    }

    /// Resets the data for a new game: back to the status before any
    /// invitation, with the placeholder deck and no players.
    pub fn reset(&mut self)
        ensures
            final(self).players_and_scores == old(self).players_and_scores,
            reset_post(old(self).game_data, final(self).game_data),
    {
        self.game_data.vec_cards = prepare_for_empty();
        self.game_data.card_index_of_first_click = 0;
        self.game_data.card_index_of_second_click = 0;
        self.game_data.players = Vec::new();
        self.game_data.game_status = GameStatus::InviteAskBegin;
        self.game_data.content_folder_name = "alphabet".to_owned();
        self.game_data.asked_folder_name = "".to_owned();
        self.game_data.my_player_number = 1;
        self.game_data.player_turn = 0;
        self.game_data.game_config = None;
    }

    /// The relay's answer to the first message: records an error when the id
    /// it names is not this client's.
    pub fn on_response_ws_uid(&mut self, your_ws_uid: usize)
        ensures
            final(self).players_and_scores == old(self).players_and_scores,
            ws_uid_post(old(self).game_data, final(self).game_data, your_ws_uid),
    {
        if self.game_data.my_ws_uid != your_ws_uid {
            self.game_data.error_text = Some("my_ws_uid is incorrect!".to_owned());
        }
    }

    /// The dealt game arrived: takes its deck, configuration and players,
    /// starts play with player 1 and finds this client's player number.
    pub fn on_msg_game_data_init(
        &mut self,
        card_grid_data: Vec<Card>,
        game_config: Option<Spelling>,
        players: Vec<Player>,
    )
        ensures
            final(self).players_and_scores == old(self).players_and_scores,
            game_data_init_post(old(self).game_data, final(self).game_data, card_grid_data@, game_config, players@),
    {
        let ghost cfg = game_config;
        let number = player_number_in(&players, self.game_data.my_ws_uid, self.game_data.my_player_number);
        self.game_data.content_folder_name = self.game_data.asked_folder_name.clone();
        self.game_data.game_status = GameStatus::PlayBefore1stCard;
        self.game_data.player_turn = 1;
        self.game_data.card_index_of_first_click = 0;
        self.game_data.card_index_of_second_click = 0;
        self.game_data.vec_cards = card_grid_data;
        self.game_data.game_config = game_config;
        self.game_data.players = players;
        self.game_data.my_player_number = number;
        proof {
            assert(same_config(cfg, cfg));
        }
    }

    /// Hands the turn to the next player (see `take_turn_end`).
    pub fn take_turn(&mut self)
        requires
            picks_in_deck(old(self).game_data),
        ensures
            final(self).players_and_scores == old(self).players_and_scores,
            take_turn_end_post(old(self).game_data, final(self).game_data),
    {
        take_turn_end(self);
    }

    /// The player in turn changed: hands the turn on.
    pub fn on_player_change(&mut self)
        requires
            picks_in_deck(old(self).game_data),
        ensures
            final(self).players_and_scores == old(self).players_and_scores,
            take_turn_end_post(old(self).game_data, final(self).game_data),
    {
        self.take_turn();
    }

    /// The configuration of the asked content set was loaded.
    pub fn on_response_game_config_json(&mut self, game_config: Spelling)
        ensures
            final(self).players_and_scores == old(self).players_and_scores,
            final(self).game_data == (GameData { game_config: Some(game_config), ..old(self).game_data }),
    {
        self.game_data.game_config = Some(game_config);
    }
}

impl PlayersAndScores {
    /// The empty panel, as a value.
    pub open spec fn spec_new() -> PlayersAndScores {
        PlayersAndScores { player_turn: 0, my_points: 0, my_player_number: 1 }
    }
}

} // verus!
